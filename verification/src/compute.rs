//! Entry points that evaluate named order-book features over one book or a
//! run of books.  All of them are strict: an unknown name, an invalid
//! configuration or a failing feature ends the call with that failure and no
//! partial result.

use vstd::prelude::*;
use crate::errors::{FeatureError, FeatureErrorView};
use crate::interface::{ConfigView, OrderbookConfig, config_check};
use crate::market::{BookView, Orderbook};
use crate::numeric::Fixed;
use crate::selector::{
    FeatureSelector,
    OrderbookFeature,
    name_views,
    resolve,
    row_outcome,
    row_values,
};

verus! {

/// How a caller wants the computed features laid out.
#[derive(Clone, Copy, Debug, PartialEq, Eq, Structural)]
pub enum FeaturesOutput {
    Values,
    HashMap,
}

/// The views of a run of books, in order.
pub open spec fn book_views(books: Seq<Orderbook>) -> Seq<BookView> {
    Seq::new(books.len(), |i: int| books[i]@)
}

/// Whether every book of a run is valid.
pub open spec fn books_wf(books: Seq<BookView>) -> bool {
    forall|i: int| 0 <= i < books.len() ==> (#[trigger] books[i]).wf()
}

/// The raw values of a matrix, row by row.
pub open spec fn matrix_values(rows: Seq<Vec<Fixed>>) -> Seq<Seq<int>> {
    Seq::new(rows.len(), |i: int| row_values(rows[i]@))
}

/// One row per book, in order, each holding the values of the kinds in their
/// order; or the failure of the first book on which a kind fails.
pub open spec fn matrix_outcome(
    features: Seq<OrderbookFeature>,
    books: Seq<BookView>,
    config: ConfigView,
) -> Result<Seq<Seq<int>>, FeatureErrorView>
    decreases books.len(),
{
    if books.len() == 0 {
        Ok(Seq::empty())
    } else {
        match matrix_outcome(features, books.drop_last(), config) {
            Err(e) => Err(e),
            Ok(rows) => match row_outcome(features, books.last(), config) {
                Ok(row) => Ok(rows.push(row)),
                Err(e) => Err(e),
            },
        }
    }
}

/// A failure on a run of books is the failure on any longer run that starts
/// with it.
pub proof fn lemma_matrix_failure_stays(
    features: Seq<OrderbookFeature>,
    books: Seq<BookView>,
    config: ConfigView,
    k: int,
)
    requires
        0 <= k <= books.len(),
        matrix_outcome(features, books.take(k), config) is Err,
    ensures
        matrix_outcome(features, books, config) == matrix_outcome(features, books.take(k), config),
    decreases books.len(),
{
    if k == books.len() {
        assert(books.take(k) =~= books);
    } else {
        assert(books.drop_last().take(k) =~= books.take(k));
        lemma_matrix_failure_stays(features, books.drop_last(), config, k);
    }
}

/// What evaluating named features under a given configuration is owed to
/// return: the failure to resolve a name, else the matrix or the first
/// failure of a feature.
pub open spec fn named_matrix_outcome(
    names: Seq<Seq<char>>,
    books: Seq<BookView>,
    config: ConfigView,
) -> Result<Seq<Seq<int>>, FeatureErrorView> {
    match resolve(names) {
        Err(e) => Err(e),
        Ok(features) => matrix_outcome(features, books, config),
    }
}

/// What evaluating named features under a depth and a tolerance is owed to
/// return: the failure to resolve a name, else `InvalidConfig` when the depth
/// or the tolerance is out of range, else the matrix or the first failure of a
/// feature.
pub open spec fn features_outcome(
    names: Seq<Seq<char>>,
    books: Seq<BookView>,
    depth: int,
    bps: int,
) -> Result<Seq<Seq<int>>, FeatureErrorView> {
    match resolve(names) {
        Err(e) => Err(e),
        Ok(features) => match config_check(depth, bps) {
            Some(e) => Err(e),
            None => matrix_outcome(features, books, ConfigView { depth, bps }),
        },
    }
}

/// What evaluating named features on one book is owed to return.
pub open spec fn named_row_outcome(names: Seq<Seq<char>>, book: BookView, config: ConfigView)
    -> Result<Seq<int>, FeatureErrorView> {
    match resolve(names) {
        Err(e) => Err(e),
        Ok(features) => row_outcome(features, book, config),
    }
}

/// Whether a returned matrix or failure is the one owed.
pub open spec fn matrix_matches(
    r: Result<Vec<Vec<Fixed>>, FeatureError>,
    owed: Result<Seq<Seq<int>>, FeatureErrorView>,
) -> bool {
    match r {
        Ok(rows) => owed == Ok::<Seq<Seq<int>>, FeatureErrorView>(matrix_values(rows@)),
        Err(e) => owed == Err::<Seq<Seq<int>>, FeatureErrorView>(e@),
    }
}

/// Evaluates a selector on each book of a run, in order.
pub fn compute_rows(
    selector: &FeatureSelector,
    orderbooks: &[Orderbook],
    config: &OrderbookConfig,
) -> (r: Result<Vec<Vec<Fixed>>, FeatureError>)
    requires
        books_wf(book_views(orderbooks@)),
        config.wf(),
    ensures
        matrix_matches(r, matrix_outcome(selector@, book_views(orderbooks@), config@)),
{
    let ghost books = book_views(orderbooks@);
    let mut feature_matrix: Vec<Vec<Fixed>> = Vec::new();
    let mut i: usize = 0;
    while i < orderbooks.len()
        invariant
            i <= orderbooks@.len(),
            books == book_views(orderbooks@),
            books_wf(books),
            config.wf(),
            matrix_outcome(selector@, books.take(i as int), config@) matches Ok(rows)
                && rows =~= matrix_values(feature_matrix@),
        decreases orderbooks@.len() - i,
    {
        proof {
            assert(books[i as int].wf());
            assert(books.take(i as int + 1).drop_last() =~= books.take(i as int));
        }
        match selector.compute_values(&orderbooks[i], config) {
            Ok(features) => {
                feature_matrix.push(features);
            },
            Err(e) => {
                proof {
                    lemma_matrix_failure_stays(selector@, books, config@, i as int + 1);
                }
                return Err(e);
            },
        }
        i = i + 1;
    }
    proof {
        assert(books.take(i as int) =~= books);
    }
    Ok(feature_matrix)
}

/// The named features of each book under the given depth and tolerance: one
/// row per book, one column per name, both in the order given.
pub fn compute_features(
    orderbooks: &[Orderbook],
    feature_names: &[&str],
    depth: usize,
    bps: Fixed,
    _output_format: FeaturesOutput,
) -> (r: Result<Vec<Vec<Fixed>>, FeatureError>)
    requires
        books_wf(book_views(orderbooks@)),
    ensures
        matrix_matches(
            r,
            features_outcome(
                name_views(feature_names@),
                book_views(orderbooks@),
                depth as int,
                bps@,
            ),
        ),
{
    let selector = match FeatureSelector::new(feature_names) {
        Ok(s) => s,
        Err(e) => {
            return Err(e);
        },
    };
    let config = match OrderbookConfig::new(depth, bps) {
        Ok(c) => c,
        Err(e) => {
            return Err(e);
        },
    };
    compute_rows(&selector, orderbooks, &config)
}

/// The named features of each book under the given configuration.
pub fn compute_features_with_config(
    orderbooks: &[Orderbook],
    feature_names: &[&str],
    config: &OrderbookConfig,
) -> (r: Result<Vec<Vec<Fixed>>, FeatureError>)
    requires
        books_wf(book_views(orderbooks@)),
        config.wf(),
    ensures
        matrix_matches(
            r,
            named_matrix_outcome(name_views(feature_names@), book_views(orderbooks@), config@),
        ),
{
    let selector = match FeatureSelector::new(feature_names) {
        Ok(s) => s,
        Err(e) => {
            return Err(e);
        },
    };
    compute_rows(&selector, orderbooks, config)
}

/// The named features of one book under the given configuration.
pub fn compute_single_orderbook(
    ob: &Orderbook,
    feature_names: &[&str],
    config: &OrderbookConfig,
) -> (r: Result<Vec<Fixed>, FeatureError>)
    requires
        ob.wf(),
        config.wf(),
    ensures
        match r {
            Ok(row) => named_row_outcome(name_views(feature_names@), ob@, config@) == Ok::<
                Seq<int>,
                FeatureErrorView,
            >(row_values(row@)),
            Err(e) => named_row_outcome(name_views(feature_names@), ob@, config@) == Err::<
                Seq<int>,
                FeatureErrorView,
            >(e@),
        },
{
    let selector = match FeatureSelector::new(feature_names) {
        Ok(s) => s,
        Err(e) => {
            return Err(e);
        },
    };
    selector.compute_values(ob, config)
}

} // verus!
