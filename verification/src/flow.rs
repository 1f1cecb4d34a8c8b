//! Directional volume of trades and liquidations.
//!
//! A fill counts as buying when its side is exactly `Buy` and as selling when
//! it is exactly `Sell`.  The comparison is case-sensitive.  A fill with any
//! other side counts toward neither, so it leaves both the difference and the
//! total of the directional volumes untouched.

use vstd::prelude::*;
use crate::market::{FillView, Liquidation, Trade, fills_wf, liquidation_views, trade_views};
use crate::numeric::{
    MAX_MAGNITUDE,
    SCALE,
    div_trunc,
    lemma_trunc_div_between,
    magnitude,
    trunc_div,
};
use crate::text::str_eq;

verus! {

/// Largest directional volume that a valid run of fills can add up to:
/// `MAX_ITEMS` times `MAX_MAGNITUDE`.
pub const MAX_ITEMS_VOLUME: i128 = 5_000_000_000_000_000_000_000;

/// Whether a side text marks a buy.
pub open spec fn is_buy(side: Seq<char>) -> bool {
    side == "Buy"@
}

/// Whether a side text marks a sell.
pub open spec fn is_sell(side: Seq<char>) -> bool {
    side == "Sell"@
}

/// Sum of the amounts of all fills, whatever their side.
pub open spec fn amount_sum(s: Seq<FillView>) -> int
    decreases s.len(),
{
    if s.len() == 0 {
        0
    } else {
        amount_sum(s.drop_last()) + s.last().amount
    }
}

/// Sum of the amounts of the fills marked as buys.
pub open spec fn buy_volume(s: Seq<FillView>) -> int
    decreases s.len(),
{
    if s.len() == 0 {
        0
    } else {
        buy_volume(s.drop_last()) + if is_buy(s.last().side) {
            s.last().amount
        } else {
            0
        }
    }
}

/// Sum of the amounts of the fills marked as sells.
pub open spec fn sell_volume(s: Seq<FillView>) -> int
    decreases s.len(),
{
    if s.len() == 0 {
        0
    } else {
        sell_volume(s.drop_last()) + if is_sell(s.last().side) {
            s.last().amount
        } else {
            0
        }
    }
}

/// Sum of price times amount over all fills.
pub open spec fn fill_notional_sum(s: Seq<FillView>) -> int
    decreases s.len(),
{
    if s.len() == 0 {
        0
    } else {
        fill_notional_sum(s.drop_last()) + s.last().price * s.last().amount
    }
}

/// Sum of the prices of all fills.
pub open spec fn price_sum(s: Seq<FillView>) -> int
    decreases s.len(),
{
    if s.len() == 0 {
        0
    } else {
        price_sum(s.drop_last()) + s.last().price
    }
}

/// Buy volume less sell volume as a share of their total, cut off toward
/// zero; zero when there is no fill or no directional volume.
pub open spec fn direction_imbalance(s: Seq<FillView>) -> int {
    let total = buy_volume(s) + sell_volume(s);
    if s.len() == 0 || total == 0 {
        0
    } else {
        trunc_div((buy_volume(s) - sell_volume(s)) * SCALE, total)
    }
}

/// Magnitude of the difference between buy and sell volume as a share of
/// their total, cut off toward zero; zero when there is no fill or no
/// directional volume.
pub open spec fn flow_toxicity(s: Seq<FillView>) -> int {
    let total = buy_volume(s) + sell_volume(s);
    if s.len() == 0 || total == 0 {
        0
    } else {
        trunc_div(magnitude(buy_volume(s) - sell_volume(s)) * SCALE, total)
    }
}

/// Directional volumes are not negative and are bounded by the number of
/// fills.
pub proof fn lemma_side_volumes_bounded(s: Seq<FillView>)
    requires
        forall|i: int| 0 <= i < s.len() ==> (#[trigger] s[i]).wf(),
    ensures
        0 <= buy_volume(s) <= s.len() * MAX_MAGNITUDE,
        0 <= sell_volume(s) <= s.len() * MAX_MAGNITUDE,
        0 <= amount_sum(s) <= s.len() * MAX_MAGNITUDE,
    decreases s.len(),
{
    if s.len() > 0 {
        assert(s.last().wf());
        assert forall|i: int| 0 <= i < s.drop_last().len() implies (#[trigger] s.drop_last()[i]).wf() by {
            assert(s[i].wf());
        }
        lemma_side_volumes_bounded(s.drop_last());
    }
}

/// The two side texts differ, so no fill is both a buy and a sell.
pub proof fn lemma_sides_differ()
    ensures
        "Buy"@ != "Sell"@,
{
    reveal_strlit("Buy");
    reveal_strlit("Sell");
    assert("Buy"@.len() == 3);
    assert("Sell"@.len() == 4);
}

/// Adds `amount` to the buy or the sell volume as `side` says, or to neither.
fn add_by_side(side: &str, amount: i128, buy: i128, sell: i128) -> (r: (i128, i128))
    requires
        0 <= amount <= MAX_MAGNITUDE,
        0 <= buy <= i128::MAX - MAX_MAGNITUDE,
        0 <= sell <= i128::MAX - MAX_MAGNITUDE,
    ensures
        r.0 == buy + if is_buy(side@) {
            amount as int
        } else {
            0
        },
        r.1 == sell + if is_sell(side@) {
            amount as int
        } else {
            0
        },
{
    proof {
        lemma_sides_differ();
    }
    if str_eq(side, "Buy") {
        (buy + amount, sell)
    } else if str_eq(side, "Sell") {
        (buy, sell + amount)
    } else {
        (buy, sell)
    }
}

/// Buy and sell volume of a run of trades.
pub fn trade_side_volumes(trades: &[Trade]) -> (r: (i128, i128))
    requires
        fills_wf(trade_views(trades@)),
    ensures
        r.0 == buy_volume(trade_views(trades@)),
        r.1 == sell_volume(trade_views(trades@)),
        0 <= r.0 <= trades@.len() * MAX_MAGNITUDE,
        0 <= r.1 <= trades@.len() * MAX_MAGNITUDE,
{
    let ghost views = trade_views(trades@);
    let mut buy: i128 = 0;
    let mut sell: i128 = 0;
    let mut i: usize = 0;
    while i < trades.len()
        invariant
            i <= trades@.len(),
            views == trade_views(trades@),
            fills_wf(views),
            buy == buy_volume(views.take(i as int)),
            sell == sell_volume(views.take(i as int)),
            0 <= buy <= i * MAX_MAGNITUDE,
            0 <= sell <= i * MAX_MAGNITUDE,
        decreases trades@.len() - i,
    {
        proof {
            assert(views[i as int].wf());
            assert(views.take(i as int + 1).drop_last() =~= views.take(i as int));
        }
        let next = add_by_side(trades[i].side.as_str(), trades[i].amount.raw, buy, sell);
        buy = next.0;
        sell = next.1;
        i = i + 1;
    }
    proof {
        assert(views.take(i as int) =~= views);
    }
    (buy, sell)
}

/// Buy and sell volume of a run of liquidations.
pub fn liquidation_side_volumes(liqs: &[Liquidation]) -> (r: (i128, i128))
    requires
        fills_wf(liquidation_views(liqs@)),
    ensures
        r.0 == buy_volume(liquidation_views(liqs@)),
        r.1 == sell_volume(liquidation_views(liqs@)),
        0 <= r.0 <= liqs@.len() * MAX_MAGNITUDE,
        0 <= r.1 <= liqs@.len() * MAX_MAGNITUDE,
{
    let ghost views = liquidation_views(liqs@);
    let mut buy: i128 = 0;
    let mut sell: i128 = 0;
    let mut i: usize = 0;
    while i < liqs.len()
        invariant
            i <= liqs@.len(),
            views == liquidation_views(liqs@),
            fills_wf(views),
            buy == buy_volume(views.take(i as int)),
            sell == sell_volume(views.take(i as int)),
            0 <= buy <= i * MAX_MAGNITUDE,
            0 <= sell <= i * MAX_MAGNITUDE,
        decreases liqs@.len() - i,
    {
        proof {
            assert(views[i as int].wf());
            assert(views.take(i as int + 1).drop_last() =~= views.take(i as int));
        }
        let next = add_by_side(liqs[i].side.as_str(), liqs[i].amount.raw, buy, sell);
        buy = next.0;
        sell = next.1;
        i = i + 1;
    }
    proof {
        assert(views.take(i as int) =~= views);
    }
    (buy, sell)
}

/// The signed share `(buy - sell) / (buy + sell)` of two volumes, cut off
/// toward zero; zero when both are zero.
pub fn signed_share(buy: i128, sell: i128) -> (r: i128)
    requires
        0 <= buy <= MAX_ITEMS_VOLUME,
        0 <= sell <= MAX_ITEMS_VOLUME,
    ensures
        r == if buy + sell == 0 {
            0
        } else {
            trunc_div((buy - sell) * SCALE, buy + sell)
        },
        -SCALE <= r <= SCALE,
{
    let total: i128 = buy + sell;
    if total == 0 {
        return 0;
    }
    proof {
        lemma_trunc_div_between(
            (buy - sell) * SCALE,
            total as int,
            -(SCALE as int),
            SCALE as int,
        );
    }
    div_trunc((buy - sell) * SCALE, total)
}

/// The unsigned share `|buy - sell| / (buy + sell)` of two volumes, cut off
/// toward zero; zero when both are zero.
pub fn unsigned_share(buy: i128, sell: i128) -> (r: i128)
    requires
        0 <= buy <= MAX_ITEMS_VOLUME,
        0 <= sell <= MAX_ITEMS_VOLUME,
    ensures
        r == if buy + sell == 0 {
            0
        } else {
            trunc_div(magnitude(buy - sell) * SCALE, buy + sell)
        },
        0 <= r <= SCALE,
{
    let total: i128 = buy + sell;
    if total == 0 {
        return 0;
    }
    let gap: i128 = if buy >= sell {
        buy - sell
    } else {
        sell - buy
    };
    proof {
        lemma_trunc_div_between(gap * SCALE, total as int, 0, SCALE as int);
    }
    div_trunc(gap * SCALE, total)
}

} // verus!
