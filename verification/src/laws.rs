//! Laws that hold of the features on every valid input.

use vstd::prelude::*;
use crate::compute::named_row_outcome;
use crate::compute_market::{carried_interest, feature_matrix};
use crate::errors::{FeatureError, FeatureErrorView};
use crate::flow::{
    buy_volume,
    direction_imbalance,
    flow_toxicity,
    lemma_side_volumes_bounded,
    sell_volume,
};
use crate::interface::{ConfigView, Feature};
use crate::market::{BookView, FillView, SnapshotView};
use crate::numeric::{
    SCALE,
    lemma_trunc_div_between,
    lemma_trunc_div_sign,
    magnitude,
    trunc_div,
};
use crate::open_interest::oi_change_outcome;
use crate::orderbook::imbalance::imbalance_outcome;
use crate::orderbook::microprice::microprice_outcome;
use crate::orderbook::price::midprice_outcome;
use crate::orderbook::spread::spread_outcome;
use crate::compute_market::snapshot_row;
use crate::interface::FeatureCategory;
use crate::registry::{category_in, orderbook_registrations};
use crate::selector::{OrderbookFeature, feature_named, names_of, resolve, row_outcome};

verus! {

/// On a book with both sides present, the spread is the best ask price less
/// the best bid price and the mid price is half their sum, cut off after the
/// eighth decimal place.
pub proof fn law_spread_and_midprice(book: BookView)
    requires
        book.bids.len() > 0,
        book.asks.len() > 0,
    ensures
        spread_outcome(book) == Ok::<int, FeatureErrorView>(
            book.asks[0].price - book.bids[0].price,
        ),
        midprice_outcome(book) == Ok::<int, FeatureErrorView>(
            trunc_div(book.asks[0].price + book.bids[0].price, 2),
        ),
{
}

/// Whenever the best sizes are not negative and add up to more than nothing,
/// the imbalance is the ask share of their total and lies between zero and
/// one.
pub proof fn law_imbalance_is_a_share(book: BookView)
    requires
        book.bids.len() > 0,
        book.asks.len() > 0,
        book.bids[0].volume >= 0,
        book.asks[0].volume >= 0,
        book.bids[0].volume + book.asks[0].volume > 0,
    ensures
        imbalance_outcome(book) == Ok::<int, FeatureErrorView>(
            trunc_div(
                book.asks[0].volume * SCALE,
                book.asks[0].volume + book.bids[0].volume,
            ),
        ),
        imbalance_outcome(book) matches Ok(v) && 0 <= v <= SCALE,
{
    let ask = book.asks[0].volume;
    let total = book.asks[0].volume + book.bids[0].volume;
    assert(0 * total <= ask * SCALE && ask * SCALE <= SCALE * total) by (nonlinear_arith)
        requires
            0 <= ask <= total,
            SCALE == 100_000_000,
    ;
    lemma_trunc_div_between(ask * SCALE, total, 0, SCALE as int);
}

/// The smaller of two numbers.
pub open spec fn lesser(a: int, b: int) -> int {
    if a <= b {
        a
    } else {
        b
    }
}

/// The larger of two numbers.
pub open spec fn greater(a: int, b: int) -> int {
    if a >= b {
        a
    } else {
        b
    }
}

/// With sizes that are not negative, the microprice lies between the best bid
/// price and the best ask price, whichever of the two is lower.
pub proof fn law_microprice_between_best_prices(book: BookView)
    requires
        book.bids.len() > 0,
        book.asks.len() > 0,
        book.bids[0].volume >= 0,
        book.asks[0].volume >= 0,
        book.bids[0].volume + book.asks[0].volume > 0,
    ensures
        microprice_outcome(book) matches Ok(v) && lesser(book.bids[0].price, book.asks[0].price)
            <= v <= greater(book.bids[0].price, book.asks[0].price),
{
    let bp = book.bids[0].price;
    let ap = book.asks[0].price;
    let bv = book.bids[0].volume;
    let av = book.asks[0].volume;
    let lo = lesser(bp, ap);
    let hi = greater(bp, ap);
    let total = bv + av;
    let weighted = bp * av + ap * bv;
    assert(lo * total <= weighted && weighted <= hi * total) by (nonlinear_arith)
        requires
            lo <= bp <= hi,
            lo <= ap <= hi,
            bv >= 0,
            av >= 0,
            total == bv + av,
            weighted == bp * av + ap * bv,
    ;
    lemma_trunc_div_between(weighted, total, lo, hi);
}

/// The directional imbalance of trades or liquidations with amounts that are
/// not negative lies between minus one and one, their toxicity between zero
/// and one, and both are zero when there is no fill.
pub proof fn law_flow_shares_bounded(fills: Seq<FillView>)
    requires
        forall|i: int| 0 <= i < fills.len() ==> (#[trigger] fills[i]).wf(),
    ensures
        -SCALE <= direction_imbalance(fills) <= SCALE,
        0 <= flow_toxicity(fills) <= SCALE,
        fills.len() == 0 ==> direction_imbalance(fills) == 0 && flow_toxicity(fills) == 0,
{
    lemma_side_volumes_bounded(fills);
    let buy = buy_volume(fills);
    let sell = sell_volume(fills);
    let total = buy + sell;
    if fills.len() > 0 && total != 0 {
        let gap = buy - sell;
        assert(-SCALE * total <= gap * SCALE && gap * SCALE <= SCALE * total
            && 0 * total <= magnitude(gap) * SCALE && magnitude(gap) * SCALE <= SCALE * total)
            by (nonlinear_arith)
            requires
                buy >= 0,
                sell >= 0,
                total == buy + sell,
                gap == buy - sell,
                SCALE == 100_000_000,
        ;
        lemma_trunc_div_between(gap * SCALE, total, -(SCALE as int), SCALE as int);
        lemma_trunc_div_between(magnitude(gap) * SCALE, total, 0, SCALE as int);
    }
}

/// Every order-book feature fails with `EmptyOrderbook` on a book that misses
/// its bids or its asks, whatever the configuration.
pub proof fn law_missing_side_fails(kind: OrderbookFeature, book: BookView, config: ConfigView)
    requires
        book.bids.len() == 0 || book.asks.len() == 0,
    ensures
        kind.outcome(book, config) == Err::<int, FeatureErrorView>(
            FeatureErrorView::EmptyOrderbook,
        ),
{
}

/// A selection of at least one feature fails with `EmptyOrderbook` on a book
/// that misses its bids or its asks.
pub proof fn law_missing_side_fails_selection(
    features: Seq<OrderbookFeature>,
    book: BookView,
    config: ConfigView,
)
    requires
        features.len() > 0,
        book.bids.len() == 0 || book.asks.len() == 0,
    ensures
        row_outcome(features, book, config) == Err::<Seq<int>, FeatureErrorView>(
            FeatureErrorView::EmptyOrderbook,
        ),
    decreases features.len(),
{
    law_missing_side_fails(features.last(), book, config);
    if features.len() > 1 {
        law_missing_side_fails_selection(features.drop_last(), book, config);
    } else {
        assert(features.drop_last().len() == 0);
    }
}

/// Evaluating at least one known name on a book that misses its bids or its
/// asks fails with `EmptyOrderbook`.
pub proof fn law_missing_side_fails_by_name(
    names: Seq<Seq<char>>,
    book: BookView,
    config: ConfigView,
)
    requires
        names.len() > 0,
        resolve(names) is Ok,
        book.bids.len() == 0 || book.asks.len() == 0,
    ensures
        named_row_outcome(names, book, config) == Err::<Seq<int>, FeatureErrorView>(
            FeatureErrorView::EmptyOrderbook,
        ),
{
    crate::selector::lemma_resolve_pointwise(names);
    law_missing_side_fails_selection(resolve(names)->Ok_0, book, config);
}

/// The change in open interest from a value to itself is zero.
pub proof fn law_no_change_is_zero(value: int)
    ensures
        oi_change_outcome(value, value) == Ok::<int, FeatureErrorView>(0),
{
    if value > 0 {
        lemma_trunc_div_sign(0, value);
    } else if value < 0 {
        lemma_trunc_div_sign(0, -value);
    }
}

/// A stream carries no open interest into a snapshot that no snapshot with
/// open interest precedes.
pub proof fn lemma_nothing_carried(snaps: Seq<SnapshotView>, i: int)
    requires
        0 <= i <= snaps.len(),
        forall|j: int| 0 <= j < i ==> (#[trigger] snaps[j]).open_interest is None,
    ensures
        carried_interest(snaps, i) is None,
    decreases i,
{
    if i > 0 {
        lemma_nothing_carried(snaps, i - 1);
    }
}

/// The first snapshot of a stream that has open interest gets zero in the
/// open-interest column, whatever the value.
pub proof fn law_first_open_interest_change_is_zero(
    snaps: Seq<SnapshotView>,
    config: ConfigView,
    i: int,
)
    requires
        0 <= i < snaps.len(),
        snaps[i].open_interest is Some,
        forall|j: int| 0 <= j < i ==> (#[trigger] snaps[j]).open_interest is None,
    ensures
        feature_matrix(snaps, config)[i][12] == 0,
{
    lemma_nothing_carried(snaps, i);
    law_no_change_is_zero(snaps[i].open_interest->Some_0);
}

/// A feature is deterministic: two results of `compute` on the same input
/// and configuration are the same value or the same failure.
pub proof fn law_feature_deterministic<F: Feature>(
    feature: F,
    input: &F::Input,
    config: &F::Config,
    first: Result<F::Output, FeatureError>,
    second: Result<F::Output, FeatureError>,
)
    requires
        match first {
            Ok(v) => feature.outcome(input, config) == Ok::<int, FeatureErrorView>(v@),
            Err(e) => feature.outcome(input, config) == Err::<int, FeatureErrorView>(e@),
        },
        match second {
            Ok(v) => feature.outcome(input, config) == Ok::<int, FeatureErrorView>(v@),
            Err(e) => feature.outcome(input, config) == Err::<int, FeatureErrorView>(e@),
        },
    ensures
        match (first, second) {
            (Ok(a), Ok(b)) => a@ == b@,
            (Err(a), Err(b)) => a@ == b@,
            _ => false,
        },
{
}

/// The seven order-book feature names are pairwise different.
pub proof fn lemma_orderbook_names_differ()
    ensures
        "spread"@ != "midprice"@,
        "spread"@ != "w_midprice"@,
        "spread"@ != "vwap"@,
        "spread"@ != "imb"@,
        "spread"@ != "tav"@,
        "spread"@ != "microprice"@,
        "midprice"@ != "w_midprice"@,
        "midprice"@ != "vwap"@,
        "midprice"@ != "imb"@,
        "midprice"@ != "tav"@,
        "midprice"@ != "microprice"@,
        "w_midprice"@ != "vwap"@,
        "w_midprice"@ != "imb"@,
        "w_midprice"@ != "tav"@,
        "w_midprice"@ != "microprice"@,
        "vwap"@ != "imb"@,
        "vwap"@ != "tav"@,
        "vwap"@ != "microprice"@,
        "imb"@ != "tav"@,
        "imb"@ != "microprice"@,
        "tav"@ != "microprice"@,
{
    reveal_strlit("spread");
    reveal_strlit("midprice");
    reveal_strlit("w_midprice");
    reveal_strlit("vwap");
    reveal_strlit("imb");
    reveal_strlit("tav");
    reveal_strlit("microprice");
    assert("spread"@.len() == 6 && "midprice"@.len() == 8 && "w_midprice"@.len() == 10);
    assert("vwap"@.len() == 4 && "imb"@.len() == 3 && "tav"@.len() == 3);
    assert("microprice"@.len() == 10);
    assert("imb"@[0] == 'i' && "tav"@[0] == 't');
    assert("w_midprice"@[0] == 'w' && "microprice"@[0] == 'm');
}

/// Looking a kind up by its own name gives that kind back.
pub proof fn law_kind_found_by_its_name(kind: OrderbookFeature)
    ensures
        feature_named(kind.spec_name()) == Some(kind),
{
    lemma_orderbook_names_differ();
}

/// The names of a run of kinds resolve to that run, so a selector built from
/// kinds and one built from their names select the same features.
pub proof fn law_names_of_kinds_resolve(features: Seq<OrderbookFeature>)
    ensures
        resolve(names_of(features)) == Ok::<Seq<OrderbookFeature>, FeatureErrorView>(features),
    decreases features.len(),
{
    let names = names_of(features);
    if features.len() == 0 {
        assert(features =~= Seq::<OrderbookFeature>::empty());
    } else {
        assert(names.drop_last() =~= names_of(features.drop_last()));
        law_names_of_kinds_resolve(features.drop_last());
        law_kind_found_by_its_name(features.last());
        assert(names.last() == features.last().spec_name());
        assert(features.drop_last().push(features.last()) =~= features);
    }
}

/// The order-book registry knows every order-book feature kind under the
/// category that the kind reports, and knows no other name.
pub proof fn law_orderbook_registry_matches_kinds(name: Seq<char>)
    ensures
        category_in(orderbook_registrations(), name) == match feature_named(name) {
            Some(kind) => Some(kind.spec_category()),
            None => None,
        },
{
    lemma_orderbook_names_differ();
    let h = orderbook_registrations();
    reveal_with_fuel(category_in, 8);
    assert(h.len() == 7);
    assert(h.last() == ("tav"@, FeatureCategory::Volume));
    let h6 = h.drop_last();
    assert(h6.last() == ("imb"@, FeatureCategory::Imbalance));
    let h5 = h6.drop_last();
    assert(h5.last() == ("vwap"@, FeatureCategory::Volume));
    let h4 = h5.drop_last();
    assert(h4.last() == ("microprice"@, FeatureCategory::Price));
    let h3 = h4.drop_last();
    assert(h3.last() == ("w_midprice"@, FeatureCategory::Price));
    let h2 = h3.drop_last();
    assert(h2.last() == ("midprice"@, FeatureCategory::Price));
    let h1 = h2.drop_last();
    assert(h1.last() == ("spread"@, FeatureCategory::Spread));
    assert(h1.drop_last().len() == 0);
}

/// The seven order-book kinds in column order.
pub open spec fn canonical_orderbook_kinds() -> Seq<OrderbookFeature> {
    seq![
        OrderbookFeature::Spread,
        OrderbookFeature::Midprice,
        OrderbookFeature::WeightedMidprice,
        OrderbookFeature::Microprice,
        OrderbookFeature::Vwap,
        OrderbookFeature::Tav,
        OrderbookFeature::Imbalance,
    ]
}

/// Where the strict evaluation of the seven order-book features succeeds on
/// the book of a snapshot, the lenient row of the snapshot starts with the
/// same seven values.
pub proof fn law_lenient_row_agrees_with_strict(
    snap: SnapshotView,
    carried: Option<int>,
    config: ConfigView,
)
    requires
        snap.book is Some,
        row_outcome(canonical_orderbook_kinds(), snap.book->Some_0, config) is Ok,
    ensures
        snapshot_row(snap, carried, config).take(7) == row_outcome(
            canonical_orderbook_kinds(),
            snap.book->Some_0,
            config,
        )->Ok_0,
{
    let kinds = canonical_orderbook_kinds();
    let book = snap.book->Some_0;
    let k6 = kinds.drop_last();
    let k5 = k6.drop_last();
    let k4 = k5.drop_last();
    let k3 = k4.drop_last();
    let k2 = k3.drop_last();
    let k1 = k2.drop_last();
    let k0 = k1.drop_last();
    assert(k0.len() == 0);
    assert(kinds.last() == OrderbookFeature::Imbalance);
    assert(k6.last() == OrderbookFeature::Tav);
    assert(k5.last() == OrderbookFeature::Vwap);
    assert(k4.last() == OrderbookFeature::Microprice);
    assert(k3.last() == OrderbookFeature::WeightedMidprice);
    assert(k2.last() == OrderbookFeature::Midprice);
    assert(k1.last() == OrderbookFeature::Spread);
    assert(row_outcome(k0, book, config) is Ok);
    assert(row_outcome(k1, book, config) is Ok);
    assert(row_outcome(k2, book, config) is Ok);
    assert(row_outcome(k3, book, config) is Ok);
    assert(row_outcome(k4, book, config) is Ok);
    assert(row_outcome(k5, book, config) is Ok);
    assert(row_outcome(k6, book, config) is Ok);
    assert(snapshot_row(snap, carried, config).take(7) =~= row_outcome(kinds, book, config)->Ok_0);
}

} // verus!
