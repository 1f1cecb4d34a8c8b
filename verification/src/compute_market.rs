//! The canonical fifteen-column feature vector of each snapshot in a stream.
//!
//! Callers read the columns by position, so their order is fixed:
//!
//! 0. spread
//! 1. midprice
//! 2. w_midprice
//! 3. microprice
//! 4. vwap
//! 5. tav
//! 6. imb
//! 7. trade_intensity
//! 8. trade_direction_imbalance
//! 9. liquidation_pressure
//! 10. liquidation_imbalance
//! 11. funding_rate
//! 12. oi_change
//! 13. price_impact
//! 14. trade_flow_toxicity
//!
//! The aggregation is lenient: a source that is absent, or a feature that
//! fails, gives zero in its column, and the call as a whole never fails.

use vstd::prelude::*;
use crate::composite::{PriceImpactFeature, TradeFlowToxicityFeature, price_impact_outcome};
use crate::compute::matrix_values;
use crate::errors::{FeatureError, Outcome};
use crate::flow::{amount_sum, direction_imbalance, fill_notional_sum, flow_toxicity};
use crate::funding::{BASIS_POINTS, FundingRateFeature};
use crate::interface::{ConfigView, Feature, MarketConfig, OrderbookConfig};
use crate::liquidations::{LiquidationImbalanceFeature, LiquidationPressureFeature};
use crate::market::{MarketSnapshot, SnapshotView, snapshot_views, snapshots_wf};
use crate::numeric::{Fixed, SCALE, in_range, trunc_div};
use crate::open_interest::{OIChangeFeature, oi_change_outcome};
use crate::orderbook::imbalance::{ImbalanceFeature, imbalance_outcome};
use crate::orderbook::microprice::{MicropriceFeature, microprice_outcome};
use crate::orderbook::price::{
    MidpriceFeature,
    WeightedMidpriceFeature,
    midprice_outcome,
    weighted_midprice_outcome,
};
use crate::orderbook::spread::{SpreadFeature, spread_outcome};
use crate::orderbook::volume::{TAVFeature, VWAPFeature, tav_outcome, vwap_outcome};
use crate::selector::row_values;
use crate::trades::{TradeDirectionImbalanceFeature, TradeIntensityFeature};

verus! {

/// Number of columns of a row.
pub const FEATURE_COUNT: usize = 15;

/// Names of the fifteen features in column order.
pub const ALL_FEATURE_NAMES: [&'static str; 15] = [
    "spread",
    "midprice",
    "w_midprice",
    "microprice",
    "vwap",
    "tav",
    "imb",
    "trade_intensity",
    "trade_direction_imbalance",
    "liquidation_pressure",
    "liquidation_imbalance",
    "funding_rate",
    "oi_change",
    "price_impact",
    "trade_flow_toxicity",
];

/// The value of an outcome under the lenient policy: a failure counts as
/// zero.
pub open spec fn or_zero(o: Outcome) -> int {
    match o {
        Ok(v) => v,
        Err(_) => 0,
    }
}

/// The open interest that a stream carries into its snapshot `i`: that of the
/// latest earlier snapshot that has one, if any.
pub open spec fn carried_interest(snaps: Seq<SnapshotView>, i: int) -> Option<int>
    decreases i,
{
    if i <= 0 {
        None
    } else {
        match snaps[i - 1].open_interest {
            Some(v) => Some(v),
            None => carried_interest(snaps, i - 1),
        }
    }
}

/// The open-interest column of a snapshot: the change from the carried value
/// to the current one, the current one standing in for a missing carried
/// value; zero when the snapshot has no open interest.
pub open spec fn interest_column(current: Option<int>, carried: Option<int>) -> int {
    match current {
        None => 0,
        Some(curr) => {
            let prev = match carried {
                Some(p) => p,
                None => curr,
            };
            or_zero(oi_change_outcome(prev, curr))
        },
    }
}

/// The row of one snapshot, given the open interest carried into it.
pub open spec fn snapshot_row(snap: SnapshotView, carried: Option<int>, config: ConfigView) -> Seq<
    int,
> {
    seq![
        match snap.book {
            Some(book) => or_zero(spread_outcome(book)),
            None => 0,
        },
        match snap.book {
            Some(book) => or_zero(midprice_outcome(book)),
            None => 0,
        },
        match snap.book {
            Some(book) => or_zero(weighted_midprice_outcome(book)),
            None => 0,
        },
        match snap.book {
            Some(book) => or_zero(microprice_outcome(book)),
            None => 0,
        },
        match snap.book {
            Some(book) => or_zero(vwap_outcome(book, config.depth)),
            None => 0,
        },
        match snap.book {
            Some(book) => or_zero(tav_outcome(book, config.bps)),
            None => 0,
        },
        match snap.book {
            Some(book) => or_zero(imbalance_outcome(book)),
            None => 0,
        },
        amount_sum(snap.trades),
        direction_imbalance(snap.trades),
        trunc_div(fill_notional_sum(snap.liquidations), SCALE as int),
        direction_imbalance(snap.liquidations),
        match snap.funding_rate {
            Some(rate) => rate * BASIS_POINTS,
            None => 0,
        },
        interest_column(snap.open_interest, carried),
        or_zero(price_impact_outcome(snap)),
        flow_toxicity(snap.trades),
    ]
}

/// The feature matrix of a stream: one row per snapshot, in order.
pub open spec fn feature_matrix(snaps: Seq<SnapshotView>, config: ConfigView) -> Seq<Seq<int>> {
    Seq::new(
        snaps.len(),
        |i: int| snapshot_row(snaps[i], carried_interest(snaps, i), config),
    )
}

/// The value of a result under the lenient policy.
fn value_or_zero(r: Result<Fixed, FeatureError>) -> (v: Fixed)
    ensures
        v@ == match r {
            Ok(x) => x@,
            Err(_) => 0,
        },
{
    match r {
        Ok(x) => x,
        Err(_) => Fixed { raw: 0 },
    }
}

/// The row of one snapshot, given the open interest carried into it.
pub fn compute_snapshot_row(snap: &MarketSnapshot, carried: Option<Fixed>, config: &MarketConfig)
    -> (row: Vec<Fixed>)
    requires
        snap.wf(),
        config.wf(),
        carried matches Some(p) ==> in_range(p@),
    ensures
        row_values(row@) == snapshot_row(
            snap@,
            match carried {
                Some(p) => Some(p@),
                None => None,
            },
            config@,
        ),
        row@.len() == FEATURE_COUNT,
{
    let ob_config: OrderbookConfig = config.orderbook_config();
    let mut row: Vec<Fixed> = Vec::new();

    match &snap.orderbook {
        Some(ob) => {
            row.push(value_or_zero(SpreadFeature.compute(ob, &ob_config)));
            row.push(value_or_zero(MidpriceFeature.compute(ob, &ob_config)));
            row.push(value_or_zero(WeightedMidpriceFeature.compute(ob, &ob_config)));
            row.push(value_or_zero(MicropriceFeature.compute(ob, &ob_config)));
            row.push(value_or_zero(VWAPFeature.compute(ob, &ob_config)));
            row.push(value_or_zero(TAVFeature.compute(ob, &ob_config)));
            row.push(value_or_zero(ImbalanceFeature.compute(ob, &ob_config)));
        },
        None => {
            let mut k: usize = 0;
            while k < 7
                invariant
                    k <= 7,
                    row@.len() == k,
                    forall|j: int| 0 <= j < k ==> (#[trigger] row@[j])@ == 0,
                decreases 7 - k,
            {
                row.push(Fixed { raw: 0 });
                k = k + 1;
            }
        },
    }

    row.push(value_or_zero(TradeIntensityFeature.compute(snap.trades.as_slice(), config)));
    row.push(
        value_or_zero(TradeDirectionImbalanceFeature.compute(snap.trades.as_slice(), config)),
    );

    row.push(value_or_zero(LiquidationPressureFeature.compute(snap.liquidations.as_slice(), config)));
    row.push(
        value_or_zero(LiquidationImbalanceFeature.compute(snap.liquidations.as_slice(), config)),
    );

    match &snap.funding_rate {
        Some(fr) => {
            row.push(value_or_zero(FundingRateFeature.compute(fr, config)));
        },
        None => {
            row.push(Fixed { raw: 0 });
        },
    }

    match &snap.open_interest {
        Some(oi) => {
            let curr: Fixed = oi.open_interest;
            let prev: Fixed = match carried {
                Some(p) => p,
                None => curr,
            };
            let pair: [Fixed; 2] = [prev, curr];
            row.push(value_or_zero(OIChangeFeature.compute(&pair, config)));
        },
        None => {
            row.push(Fixed { raw: 0 });
        },
    }

    row.push(value_or_zero(PriceImpactFeature.compute(snap, config)));
    row.push(value_or_zero(TradeFlowToxicityFeature.compute(snap, config)));

    proof {
        let ghost carried_view: Option<int> = match carried {
            Some(p) => Some(p@),
            None => None,
        };
        assert(row_values(row@) =~= snapshot_row(snap@, carried_view, config@));
    }
    row
}

/// The feature matrix of a stream of snapshots: one row of fifteen columns
/// per snapshot, in the order of the stream.  Never fails.
pub fn compute_all_features(snapshots: &[MarketSnapshot], config: &MarketConfig) -> (r: Result<
    Vec<Vec<Fixed>>,
    FeatureError,
>)
    requires
        snapshots_wf(snapshot_views(snapshots@)),
        config.wf(),
    ensures
        r matches Ok(rows) && matrix_values(rows@) == feature_matrix(
            snapshot_views(snapshots@),
            config@,
        ) && rows@.len() == snapshots@.len() && forall|i: int|
            0 <= i < rows@.len() ==> (#[trigger] rows@[i])@.len() == FEATURE_COUNT,
{
    let ghost snaps = snapshot_views(snapshots@);
    let mut prev_oi: Option<Fixed> = None;
    let mut matrix: Vec<Vec<Fixed>> = Vec::new();
    let mut i: usize = 0;
    while i < snapshots.len()
        invariant
            i <= snapshots@.len(),
            snaps == snapshot_views(snapshots@),
            snapshots_wf(snaps),
            config.wf(),
            matrix@.len() == i,
            match prev_oi {
                Some(p) => carried_interest(snaps, i as int) == Some(p@) && in_range(p@),
                None => carried_interest(snaps, i as int) is None,
            },
            forall|k: int|
                0 <= k < i ==> row_values((#[trigger] matrix@[k])@) == snapshot_row(
                    snaps[k],
                    carried_interest(snaps, k),
                    config@,
                ) && matrix@[k]@.len() == FEATURE_COUNT,
        decreases snapshots@.len() - i,
    {
        let snap: &MarketSnapshot = &snapshots[i];
        proof {
            assert(snaps[i as int].wf());
            assert(snaps[i as int] == snap@);
        }
        let row = compute_snapshot_row(snap, prev_oi, config);
        match &snap.open_interest {
            Some(oi) => {
                prev_oi = Some(oi.open_interest);
            },
            None => {},
        }
        matrix.push(row);
        i = i + 1;
    }
    proof {
        assert(matrix_values(matrix@) =~= feature_matrix(snaps, config@));
    }
    Ok(matrix)
}

/// Names of the fifteen features in column order, as a vector: the entries of
/// `ALL_FEATURE_NAMES`, each of which is the name of the feature that fills
/// its column.
pub fn all_feature_names() -> (names: Vec<&'static str>)
    ensures
        names@ == ALL_FEATURE_NAMES@,
        names@.len() == FEATURE_COUNT,
        names@[0]@ == SpreadFeature.spec_name(),
        names@[1]@ == MidpriceFeature.spec_name(),
        names@[2]@ == WeightedMidpriceFeature.spec_name(),
        names@[3]@ == MicropriceFeature.spec_name(),
        names@[4]@ == VWAPFeature.spec_name(),
        names@[5]@ == TAVFeature.spec_name(),
        names@[6]@ == ImbalanceFeature.spec_name(),
        names@[7]@ == TradeIntensityFeature.spec_name(),
        names@[8]@ == TradeDirectionImbalanceFeature.spec_name(),
        names@[9]@ == LiquidationPressureFeature.spec_name(),
        names@[10]@ == LiquidationImbalanceFeature.spec_name(),
        names@[11]@ == FundingRateFeature.spec_name(),
        names@[12]@ == OIChangeFeature.spec_name(),
        names@[13]@ == PriceImpactFeature.spec_name(),
        names@[14]@ == TradeFlowToxicityFeature.spec_name(),
{
    let mut names: Vec<&'static str> = Vec::new();
    let mut i: usize = 0;
    while i < FEATURE_COUNT
        invariant
            i <= FEATURE_COUNT,
            names@ =~= ALL_FEATURE_NAMES@.take(i as int),
        decreases FEATURE_COUNT - i,
    {
        names.push(ALL_FEATURE_NAMES[i]);
        i = i + 1;
    }
    proof {
        assert(ALL_FEATURE_NAMES@.take(FEATURE_COUNT as int) =~= ALL_FEATURE_NAMES@);
    }
    names
}

} // verus!
