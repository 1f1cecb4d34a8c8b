//! Selection of order-book features by name, and their strict evaluation.
//!
//! The set of order-book features is closed: a feature is one of seven kinds.
//! A selector is an ordered list of kinds.  Building one from names fails on
//! the first name that no kind goes by, and evaluating one fails on the first
//! feature that fails: in neither case is anything partial handed out.

use vstd::prelude::*;
use vstd::string::*;
use crate::errors::{FeatureError, FeatureErrorView, Outcome};
use crate::interface::{ConfigView, Feature, FeatureCategory, OrderbookConfig};
use crate::market::{BookView, Orderbook};
use crate::numeric::Fixed;
use crate::orderbook::imbalance::{ImbalanceFeature, imbalance_outcome};
use crate::orderbook::microprice::{MicropriceFeature, microprice_outcome};
use crate::orderbook::price::{
    MidpriceFeature,
    WeightedMidpriceFeature,
    midprice_outcome,
    weighted_midprice_outcome,
};
use crate::orderbook::spread::{SpreadFeature, spread_outcome};
use crate::orderbook::volume::{TAVFeature, VWAPFeature, tav_outcome, vwap_outcome};
use crate::text::str_eq;

verus! {

/// The order-book features, as a closed set of kinds.
#[derive(Clone, Copy, Debug, PartialEq, Eq, Hash, Structural)]
pub enum OrderbookFeature {
    Spread,
    Midprice,
    WeightedMidprice,
    Vwap,
    Imbalance,
    Tav,
    Microprice,
}

/// The kind that goes by `name`, if any.  Names are matched exactly.
pub open spec fn feature_named(name: Seq<char>) -> Option<OrderbookFeature> {
    if name == "spread"@ {
        Some(OrderbookFeature::Spread)
    } else if name == "midprice"@ {
        Some(OrderbookFeature::Midprice)
    } else if name == "w_midprice"@ {
        Some(OrderbookFeature::WeightedMidprice)
    } else if name == "vwap"@ {
        Some(OrderbookFeature::Vwap)
    } else if name == "imb"@ {
        Some(OrderbookFeature::Imbalance)
    } else if name == "tav"@ {
        Some(OrderbookFeature::Tav)
    } else if name == "microprice"@ {
        Some(OrderbookFeature::Microprice)
    } else {
        None
    }
}

impl OrderbookFeature {
    /// The name the kind goes by.
    pub open spec fn spec_name(self) -> Seq<char> {
        match self {
            OrderbookFeature::Spread => "spread"@,
            OrderbookFeature::Midprice => "midprice"@,
            OrderbookFeature::WeightedMidprice => "w_midprice"@,
            OrderbookFeature::Vwap => "vwap"@,
            OrderbookFeature::Imbalance => "imb"@,
            OrderbookFeature::Tav => "tav"@,
            OrderbookFeature::Microprice => "microprice"@,
        }
    }

    /// The grouping the kind belongs to.
    pub open spec fn spec_category(self) -> FeatureCategory {
        match self {
            OrderbookFeature::Spread => FeatureCategory::Spread,
            OrderbookFeature::Midprice => FeatureCategory::Price,
            OrderbookFeature::WeightedMidprice => FeatureCategory::Price,
            OrderbookFeature::Vwap => FeatureCategory::Volume,
            OrderbookFeature::Imbalance => FeatureCategory::Imbalance,
            OrderbookFeature::Tav => FeatureCategory::Volume,
            OrderbookFeature::Microprice => FeatureCategory::Price,
        }
    }

    /// The value of the kind on a book, or the failure owed.
    pub open spec fn outcome(self, book: BookView, config: ConfigView) -> Outcome {
        match self {
            OrderbookFeature::Spread => spread_outcome(book),
            OrderbookFeature::Midprice => midprice_outcome(book),
            OrderbookFeature::WeightedMidprice => weighted_midprice_outcome(book),
            OrderbookFeature::Vwap => vwap_outcome(book, config.depth),
            OrderbookFeature::Imbalance => imbalance_outcome(book),
            OrderbookFeature::Tav => tav_outcome(book, config.bps),
            OrderbookFeature::Microprice => microprice_outcome(book),
        }
    }

    /// Looks a kind up by name.
    pub fn from_name(name: &str) -> (r: Option<OrderbookFeature>)
        ensures
            r == feature_named(name@),
    {
        if str_eq(name, "spread") {
            Some(OrderbookFeature::Spread)
        } else if str_eq(name, "midprice") {
            Some(OrderbookFeature::Midprice)
        } else if str_eq(name, "w_midprice") {
            Some(OrderbookFeature::WeightedMidprice)
        } else if str_eq(name, "vwap") {
            Some(OrderbookFeature::Vwap)
        } else if str_eq(name, "imb") {
            Some(OrderbookFeature::Imbalance)
        } else if str_eq(name, "tav") {
            Some(OrderbookFeature::Tav)
        } else if str_eq(name, "microprice") {
            Some(OrderbookFeature::Microprice)
        } else {
            None
        }
    }

    /// The name the kind goes by.
    pub fn name(&self) -> (r: &'static str)
        ensures
            r@ == self.spec_name(),
    {
        match self {
            OrderbookFeature::Spread => SpreadFeature.name(),
            OrderbookFeature::Midprice => MidpriceFeature.name(),
            OrderbookFeature::WeightedMidprice => WeightedMidpriceFeature.name(),
            OrderbookFeature::Vwap => VWAPFeature.name(),
            OrderbookFeature::Imbalance => ImbalanceFeature.name(),
            OrderbookFeature::Tav => TAVFeature.name(),
            OrderbookFeature::Microprice => MicropriceFeature.name(),
        }
    }

    /// The grouping the kind belongs to.
    pub fn category(&self) -> (r: FeatureCategory)
        ensures
            r == self.spec_category(),
    {
        match self {
            OrderbookFeature::Spread => SpreadFeature.category(),
            OrderbookFeature::Midprice => MidpriceFeature.category(),
            OrderbookFeature::WeightedMidprice => WeightedMidpriceFeature.category(),
            OrderbookFeature::Vwap => VWAPFeature.category(),
            OrderbookFeature::Imbalance => ImbalanceFeature.category(),
            OrderbookFeature::Tav => TAVFeature.category(),
            OrderbookFeature::Microprice => MicropriceFeature.category(),
        }
    }

    /// Computes the feature of this kind on a book.
    pub fn compute(&self, ob: &Orderbook, config: &OrderbookConfig) -> (r: Result<
        Fixed,
        FeatureError,
    >)
        requires
            ob.wf(),
            config.wf(),
        ensures
            match r {
                Ok(v) => self.outcome(ob@, config@) == Ok::<int, FeatureErrorView>(v@),
                Err(e) => self.outcome(ob@, config@) == Err::<int, FeatureErrorView>(e@),
            },
    {
        match self {
            OrderbookFeature::Spread => SpreadFeature.compute(ob, config),
            OrderbookFeature::Midprice => MidpriceFeature.compute(ob, config),
            OrderbookFeature::WeightedMidprice => WeightedMidpriceFeature.compute(ob, config),
            OrderbookFeature::Vwap => VWAPFeature.compute(ob, config),
            OrderbookFeature::Imbalance => ImbalanceFeature.compute(ob, config),
            OrderbookFeature::Tav => TAVFeature.compute(ob, config),
            OrderbookFeature::Microprice => MicropriceFeature.compute(ob, config),
        }
    }
}

/// The character sequences of a run of names, in order.
pub open spec fn name_views(names: Seq<&str>) -> Seq<Seq<char>> {
    Seq::new(names.len(), |i: int| names[i]@)
}

/// The character sequences of a run of owned names, in order.
pub open spec fn string_views(names: Seq<String>) -> Seq<Seq<char>> {
    Seq::new(names.len(), |i: int| names[i]@)
}

/// The names of a run of kinds, in order.
pub open spec fn names_of(features: Seq<OrderbookFeature>) -> Seq<Seq<char>> {
    Seq::new(features.len(), |i: int| features[i].spec_name())
}

/// The kinds that a run of names stands for, in order, or `FeatureNotFound`
/// with the first name that no kind goes by.
pub open spec fn resolve(names: Seq<Seq<char>>) -> Result<Seq<OrderbookFeature>, FeatureErrorView>
    decreases names.len(),
{
    if names.len() == 0 {
        Ok(Seq::empty())
    } else {
        match resolve(names.drop_last()) {
            Err(e) => Err(e),
            Ok(found) => match feature_named(names.last()) {
                Some(kind) => Ok(found.push(kind)),
                None => Err(FeatureErrorView::FeatureNotFound { name: names.last() }),
            },
        }
    }
}

/// A failure to resolve a run of names is the failure to resolve any longer
/// run that starts with it.
pub proof fn lemma_resolve_failure_stays(names: Seq<Seq<char>>, k: int)
    requires
        0 <= k <= names.len(),
        resolve(names.take(k)) is Err,
    ensures
        resolve(names) == resolve(names.take(k)),
    decreases names.len(),
{
    if k == names.len() {
        assert(names.take(k) =~= names);
    } else {
        assert(names.drop_last().take(k) =~= names.take(k));
        lemma_resolve_failure_stays(names.drop_last(), k);
    }
}

/// What resolving gives, spelled out name by name: success exactly when every
/// name is known, each kind then standing where its name stood; else the
/// failure names the first unknown name.
pub proof fn lemma_resolve_pointwise(names: Seq<Seq<char>>)
    ensures
        match resolve(names) {
            Ok(found) => {
                &&& found.len() == names.len()
                &&& forall|i: int|
                    0 <= i < names.len() ==> feature_named(#[trigger] names[i]) == Some(found[i])
            },
            Err(e) => exists|k: int|
                {
                    &&& 0 <= k < names.len()
                    &&& feature_named(#[trigger] names[k]) is None
                    &&& e == (FeatureErrorView::FeatureNotFound { name: names[k] })
                    &&& forall|j: int| 0 <= j < k ==> feature_named(#[trigger] names[j]) is Some
                },
        },
    decreases names.len(),
{
    if names.len() > 0 {
        let front = names.drop_last();
        lemma_resolve_pointwise(front);
        match resolve(front) {
            Err(e) => {
                let k = choose|k: int|
                    {
                        &&& 0 <= k < front.len()
                        &&& feature_named(#[trigger] front[k]) is None
                        &&& e == (FeatureErrorView::FeatureNotFound { name: front[k] })
                        &&& forall|j: int| 0 <= j < k ==> feature_named(#[trigger] front[j]) is Some
                    };
                assert(front[k] == names[k]);
                assert forall|j: int| 0 <= j < k implies feature_named(#[trigger] names[j]) is Some by {
                    assert(front[j] == names[j]);
                }
            },
            Ok(found) => {
                match feature_named(names.last()) {
                    Some(kind) => {
                        assert forall|i: int| 0 <= i < names.len() implies feature_named(
                            #[trigger] names[i],
                        ) == Some(found.push(kind)[i]) by {
                            if i < front.len() {
                                assert(front[i] == names[i]);
                            }
                        }
                    },
                    None => {
                        let k = names.len() - 1;
                        assert forall|j: int| 0 <= j < k implies feature_named(
                            #[trigger] names[j],
                        ) is Some by {
                            assert(front[j] == names[j]);
                        }
                    },
                }
            },
        }
    }
}

/// The raw values of a row, in order.
pub open spec fn row_values(row: Seq<Fixed>) -> Seq<int> {
    Seq::new(row.len(), |i: int| row[i]@)
}

/// The values of a run of kinds on one book, in order, or the failure of the
/// first kind that fails.
pub open spec fn row_outcome(
    features: Seq<OrderbookFeature>,
    book: BookView,
    config: ConfigView,
) -> Result<Seq<int>, FeatureErrorView>
    decreases features.len(),
{
    if features.len() == 0 {
        Ok(Seq::empty())
    } else {
        match row_outcome(features.drop_last(), book, config) {
            Err(e) => Err(e),
            Ok(values) => match features.last().outcome(book, config) {
                Ok(v) => Ok(values.push(v)),
                Err(e) => Err(e),
            },
        }
    }
}

/// A failure on a run of kinds is the failure on any longer run that starts
/// with it.
pub proof fn lemma_row_failure_stays(
    features: Seq<OrderbookFeature>,
    book: BookView,
    config: ConfigView,
    k: int,
)
    requires
        0 <= k <= features.len(),
        row_outcome(features.take(k), book, config) is Err,
    ensures
        row_outcome(features, book, config) == row_outcome(features.take(k), book, config),
    decreases features.len(),
{
    if k == features.len() {
        assert(features.take(k) =~= features);
    } else {
        assert(features.drop_last().take(k) =~= features.take(k));
        lemma_row_failure_stays(features.drop_last(), book, config, k);
    }
}

/// An ordered selection of order-book features.
#[derive(Debug)]
pub struct FeatureSelector {
    features: Vec<OrderbookFeature>,
    feature_names: Vec<String>,
}

impl View for FeatureSelector {
    type V = Seq<OrderbookFeature>;

    /// The selected kinds, in selection order.
    closed spec fn view(&self) -> Seq<OrderbookFeature> {
        self.features@
    }
}

impl FeatureSelector {
    /// The names under which the features were selected, in selection order.
    pub closed spec fn names(&self) -> Seq<Seq<char>> {
        string_views(self.feature_names@)
    }

    /// The selector for the named features, in the order of the names.  Fails
    /// with `FeatureNotFound` on the first name that no feature goes by.
    pub fn new(feature_names: &[&str]) -> (r: Result<FeatureSelector, FeatureError>)
        ensures
            match r {
                Ok(s) => resolve(name_views(feature_names@)) == Ok::<
                    Seq<OrderbookFeature>,
                    FeatureErrorView,
                >(s@) && s.names() == name_views(feature_names@),
                Err(e) => resolve(name_views(feature_names@)) == Err::<
                    Seq<OrderbookFeature>,
                    FeatureErrorView,
                >(e@),
            },
    {
        let ghost wanted = name_views(feature_names@);
        let mut features: Vec<OrderbookFeature> = Vec::new();
        let mut names: Vec<String> = Vec::new();
        let mut i: usize = 0;
        while i < feature_names.len()
            invariant
                i <= feature_names@.len(),
                wanted == name_views(feature_names@),
                resolve(wanted.take(i as int)) == Ok::<Seq<OrderbookFeature>, FeatureErrorView>(
                    features@,
                ),
                string_views(names@) =~= wanted.take(i as int),
            decreases feature_names@.len() - i,
        {
            let name: &str = feature_names[i];
            proof {
                assert(wanted.take(i as int + 1).drop_last() =~= wanted.take(i as int));
                assert(wanted.take(i as int + 1).last() == name@);
            }
            match OrderbookFeature::from_name(name) {
                Some(kind) => {
                    features.push(kind);
                    names.push(name.to_owned());
                },
                None => {
                    proof {
                        lemma_resolve_failure_stays(wanted, i as int + 1);
                    }
                    return Err(FeatureError::FeatureNotFound { name: name.to_owned() });
                },
            }
            i = i + 1;
        }
        proof {
            assert(wanted.take(i as int) =~= wanted);
        }
        Ok(FeatureSelector { features, feature_names: names })
    }

    /// The selector for the given kinds, in their order, each under its own
    /// name.
    pub fn from_features(features: Vec<OrderbookFeature>) -> (r: FeatureSelector)
        ensures
            r@ == features@,
            r.names() == names_of(features@),
    {
        let mut names: Vec<String> = Vec::new();
        let mut i: usize = 0;
        while i < features.len()
            invariant
                i <= features@.len(),
                names@.len() == i,
                forall|k: int| 0 <= k < i ==> (#[trigger] names@[k])@ == features@[k].spec_name(),
            decreases features@.len() - i,
        {
            names.push(features[i].name().to_owned());
            i = i + 1;
        }
        proof {
            assert(string_views(names@) =~= names_of(features@));
        }
        FeatureSelector { features, feature_names: names }
    }

    /// The value of each selected feature on the book, in selection order.
    /// The first feature that fails ends the call with its failure.
    pub fn compute_values(&self, ob: &Orderbook, config: &OrderbookConfig) -> (r: Result<
        Vec<Fixed>,
        FeatureError,
    >)
        requires
            ob.wf(),
            config.wf(),
        ensures
            match r {
                Ok(row) => row_outcome(self@, ob@, config@) == Ok::<Seq<int>, FeatureErrorView>(
                    row_values(row@),
                ),
                Err(e) => row_outcome(self@, ob@, config@) == Err::<Seq<int>, FeatureErrorView>(
                    e@,
                ),
            },
    {
        let mut row: Vec<Fixed> = Vec::new();
        let mut i: usize = 0;
        while i < self.features.len()
            invariant
                i <= self.features@.len(),
                ob.wf(),
                config.wf(),
                row_outcome(self.features@.take(i as int), ob@, config@) matches Ok(values)
                    && values =~= row_values(row@),
            decreases self.features@.len() - i,
        {
            proof {
                assert(self.features@.take(i as int + 1).drop_last() =~= self.features@.take(
                    i as int,
                ));
            }
            match self.features[i].compute(ob, config) {
                Ok(v) => {
                    row.push(v);
                },
                Err(e) => {
                    proof {
                        lemma_row_failure_stays(self.features@, ob@, config@, i as int + 1);
                    }
                    return Err(e);
                },
            }
            i = i + 1;
        }
        proof {
            assert(self.features@.take(i as int) =~= self.features@);
        }
        Ok(row)
    }

    /// `compute_values` under the default configuration.
    pub fn compute_values_with_defaults(&self, ob: &Orderbook) -> (r: Result<
        Vec<Fixed>,
        FeatureError,
    >)
        requires
            ob.wf(),
        ensures
            match r {
                Ok(row) => row_outcome(self@, ob@, OrderbookConfig::default_view()) == Ok::<
                    Seq<int>,
                    FeatureErrorView,
                >(row_values(row@)),
                Err(e) => row_outcome(self@, ob@, OrderbookConfig::default_view()) == Err::<
                    Seq<int>,
                    FeatureErrorView,
                >(e@),
            },
    {
        let default_config = OrderbookConfig::default();
        self.compute_values(ob, &default_config)
    }

    /// The names under which the features were selected.
    pub fn feature_names(&self) -> (r: &[String])
        ensures
            string_views(r@) == self.names(),
    {
        self.feature_names.as_slice()
    }

    /// How many features are selected.
    pub fn len(&self) -> (n: usize)
        ensures
            n == self@.len(),
    {
        self.features.len()
    }

    /// Whether no feature is selected.
    pub fn is_empty(&self) -> (b: bool)
        ensures
            b == (self@.len() == 0),
    {
        self.features.len() == 0
    }
}

} // verus!
