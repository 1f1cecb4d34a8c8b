use convective_ml::compute::{
    compute_features, compute_features_with_config, compute_single_orderbook, FeaturesOutput,
};
use convective_ml::errors::FeatureError;
use convective_ml::interface::{FeatureCategory, OrderbookConfig};
use convective_ml::market::{Level, Orderbook};
use convective_ml::numeric::Fixed;
use convective_ml::selector::{FeatureSelector, OrderbookFeature};

fn fx(x: f64) -> Fixed {
    Fixed::from_raw((x * 1e8).round() as i128)
}

fn book() -> Orderbook {
    Orderbook::new(
        vec![Level::new(fx(100.0), fx(2.0)), Level::new(fx(99.0), fx(1.0))],
        vec![Level::new(fx(101.0), fx(1.0)), Level::new(fx(102.0), fx(3.0))],
    )
}

fn shallow_book() -> Orderbook {
    Orderbook::new(vec![Level::new(fx(10.0), fx(1.0))], vec![Level::new(fx(12.0), fx(3.0))])
}

fn empty_book() -> Orderbook {
    Orderbook::new(vec![], vec![])
}

const ALL_SEVEN: [&str; 7] = ["spread", "midprice", "w_midprice", "microprice", "vwap", "tav", "imb"];

#[test]
fn selector_keeps_the_order_of_the_names() {
    let s = FeatureSelector::new(&["imb", "spread", "midprice"]).unwrap();
    assert_eq!(s.len(), 3);
    assert!(!s.is_empty());
    let names: Vec<&str> = s.feature_names().iter().map(|n| n.as_str()).collect();
    assert_eq!(names, vec!["imb", "spread", "midprice"]);
    let row = s.compute_values(&book(), &OrderbookConfig::default()).unwrap();
    assert_eq!(row, vec![Fixed::from_raw(33_333_333), fx(1.0), fx(100.5)]);
}

#[test]
fn selector_computes_the_scenario_row() {
    let s = FeatureSelector::new(&ALL_SEVEN).unwrap();
    let c = OrderbookConfig::new(2, fx(0.001)).unwrap();
    let row = s.compute_values(&book(), &c).unwrap();
    assert_eq!(
        row,
        vec![
            fx(1.0),
            fx(100.5),
            Fixed::from_raw(10_033_333_333),
            Fixed::from_raw(10_066_666_666),
            Fixed::from_raw(10_085_714_285),
            fx(3.0),
            Fixed::from_raw(33_333_333),
        ]
    );
}

#[test]
fn selector_rejects_an_unknown_name() {
    match FeatureSelector::new(&["spread", "no_such_feature", "midprice"]) {
        Err(FeatureError::FeatureNotFound { name }) => assert_eq!(name, "no_such_feature"),
        other => panic!("unexpected result {:?}", other),
    }
}

#[test]
fn selector_reports_the_first_unknown_name() {
    match FeatureSelector::new(&["first_bad", "spread", "second_bad"]) {
        Err(FeatureError::FeatureNotFound { name }) => assert_eq!(name, "first_bad"),
        other => panic!("unexpected result {:?}", other),
    }
}

#[test]
fn selector_names_are_case_sensitive() {
    assert!(matches!(
        FeatureSelector::new(&["Spread"]),
        Err(FeatureError::FeatureNotFound { .. })
    ));
    assert!(matches!(
        FeatureSelector::new(&["trade_intensity"]),
        Err(FeatureError::FeatureNotFound { .. })
    ));
    assert!(matches!(FeatureSelector::new(&[""]), Err(FeatureError::FeatureNotFound { .. })));
}

#[test]
fn empty_selector_gives_an_empty_row() {
    let s = FeatureSelector::new(&[]).unwrap();
    assert!(s.is_empty());
    assert_eq!(s.len(), 0);
    assert_eq!(s.compute_values(&book(), &OrderbookConfig::default()).unwrap(), vec![]);
    assert_eq!(s.compute_values(&empty_book(), &OrderbookConfig::default()).unwrap(), vec![]);
}

#[test]
fn selector_accepts_a_name_twice() {
    let s = FeatureSelector::new(&["spread", "spread"]).unwrap();
    let row = s.compute_values(&book(), &OrderbookConfig::default()).unwrap();
    assert_eq!(row, vec![fx(1.0), fx(1.0)]);
}

#[test]
fn selector_from_features_names_each_kind() {
    let s = FeatureSelector::from_features(vec![
        OrderbookFeature::Tav,
        OrderbookFeature::WeightedMidprice,
        OrderbookFeature::Microprice,
        OrderbookFeature::Vwap,
    ]);
    let names: Vec<&str> = s.feature_names().iter().map(|n| n.as_str()).collect();
    assert_eq!(names, vec!["tav", "w_midprice", "microprice", "vwap"]);
    assert_eq!(s.len(), 4);
    let c = OrderbookConfig::new(1, fx(0.001)).unwrap();
    let row = s.compute_values(&book(), &c).unwrap();
    assert_eq!(
        row,
        vec![
            fx(3.0),
            Fixed::from_raw(10_033_333_333),
            Fixed::from_raw(10_066_666_666),
            Fixed::from_raw(10_033_333_333),
        ]
    );
}

#[test]
fn selector_is_strict_about_failing_features() {
    let s = FeatureSelector::new(&["spread", "vwap", "imb"]).unwrap();
    let c = OrderbookConfig::new(2, fx(0.001)).unwrap();
    match s.compute_values(&shallow_book(), &c) {
        Err(FeatureError::InsufficientDepth { requested, available }) => {
            assert_eq!((requested, available), (2, 1));
        }
        other => panic!("unexpected result {:?}", other),
    }
}

#[test]
fn selector_reports_the_first_failure_in_selection_order() {
    let zero = Orderbook::new(vec![Level::new(fx(10.0), fx(0.0))], vec![Level::new(fx(12.0), fx(0.0))]);
    let c = OrderbookConfig::new(2, fx(0.001)).unwrap();
    let first = FeatureSelector::new(&["imb", "vwap"]).unwrap();
    assert!(matches!(first.compute_values(&zero, &c), Err(FeatureError::ZeroVolume)));
    let second = FeatureSelector::new(&["vwap", "imb"]).unwrap();
    assert!(matches!(
        second.compute_values(&zero, &c),
        Err(FeatureError::InsufficientDepth { .. })
    ));
}

#[test]
fn selector_fails_on_a_book_missing_a_side() {
    for name in ALL_SEVEN {
        let s = FeatureSelector::new(&[name]).unwrap();
        let no_bids = Orderbook::new(vec![], vec![Level::new(fx(12.0), fx(3.0))]);
        let no_asks = Orderbook::new(vec![Level::new(fx(12.0), fx(3.0))], vec![]);
        assert!(matches!(
            s.compute_values(&no_bids, &OrderbookConfig::default()),
            Err(FeatureError::EmptyOrderbook)
        ));
        assert!(matches!(
            s.compute_values(&no_asks, &OrderbookConfig::default()),
            Err(FeatureError::EmptyOrderbook)
        ));
        assert!(matches!(
            s.compute_values_with_defaults(&empty_book()),
            Err(FeatureError::EmptyOrderbook)
        ));
    }
}

#[test]
fn selector_defaults_use_five_levels() {
    let s = FeatureSelector::new(&["vwap"]).unwrap();
    match s.compute_values_with_defaults(&book()) {
        Err(FeatureError::InsufficientDepth { requested, available }) => {
            assert_eq!((requested, available), (5, 2));
        }
        other => panic!("unexpected result {:?}", other),
    }
    let t = FeatureSelector::new(&["tav", "spread"]).unwrap();
    assert_eq!(t.compute_values_with_defaults(&book()).unwrap(), vec![fx(3.0), fx(1.0)]);
}

#[test]
fn kinds_resolve_by_their_own_names() {
    let kinds = [
        OrderbookFeature::Spread,
        OrderbookFeature::Midprice,
        OrderbookFeature::WeightedMidprice,
        OrderbookFeature::Vwap,
        OrderbookFeature::Imbalance,
        OrderbookFeature::Tav,
        OrderbookFeature::Microprice,
    ];
    for kind in kinds {
        assert_eq!(OrderbookFeature::from_name(kind.name()), Some(kind));
    }
    assert_eq!(OrderbookFeature::from_name("price_impact"), None);
    assert_eq!(OrderbookFeature::Vwap.category(), FeatureCategory::Volume);
    assert_eq!(OrderbookFeature::Spread.category(), FeatureCategory::Spread);
    assert_eq!(OrderbookFeature::Imbalance.category(), FeatureCategory::Imbalance);
    assert_eq!(OrderbookFeature::Microprice.category(), FeatureCategory::Price);
}

#[test]
fn compute_features_gives_one_row_per_book() {
    let books = vec![book(), shallow_book()];
    let m = compute_features(&books, &["spread", "midprice"], 1, fx(0.001), FeaturesOutput::Values)
        .unwrap();
    assert_eq!(m, vec![vec![fx(1.0), fx(100.5)], vec![fx(2.0), fx(11.0)]]);
}

#[test]
fn compute_features_of_no_books_is_empty() {
    let m = compute_features(&[], &["spread"], 1, fx(0.001), FeaturesOutput::HashMap).unwrap();
    assert!(m.is_empty());
}

#[test]
fn compute_features_rejects_unknown_names_first() {
    let books = vec![empty_book()];
    let r = compute_features(&books, &["bogus"], 0, fx(0.001), FeaturesOutput::Values);
    match r {
        Err(FeatureError::FeatureNotFound { name }) => assert_eq!(name, "bogus"),
        other => panic!("unexpected result {:?}", other),
    }
}

#[test]
fn compute_features_rejects_a_depth_of_zero() {
    let books = vec![book()];
    let r = compute_features(&books, &["spread"], 0, fx(0.001), FeaturesOutput::Values);
    match r {
        Err(FeatureError::InvalidConfig { message }) => {
            assert_eq!(message, "depth must be positive")
        }
        other => panic!("unexpected result {:?}", other),
    }
}

#[test]
fn compute_features_rejects_a_tolerance_out_of_range() {
    let books = vec![book()];
    let r = compute_features(
        &books,
        &["spread"],
        1,
        Fixed::from_raw(10_000_000_000_000_001),
        FeaturesOutput::Values,
    );
    match r {
        Err(FeatureError::InvalidConfig { message }) => assert_eq!(message, "bps is out of range"),
        other => panic!("unexpected result {:?}", other),
    }
    let edge = compute_features(
        &books,
        &["spread"],
        1,
        Fixed::from_raw(-10_000_000_000_000_000),
        FeaturesOutput::Values,
    );
    assert_eq!(edge.unwrap(), vec![vec![fx(1.0)]]);
}

#[test]
fn compute_features_aborts_on_the_first_failing_book() {
    let books = vec![book(), empty_book(), shallow_book()];
    let r = compute_features(&books, &["spread"], 1, fx(0.001), FeaturesOutput::Values);
    assert!(matches!(r, Err(FeatureError::EmptyOrderbook)));
    let books = vec![book(), shallow_book(), empty_book()];
    let r = compute_features_with_config(
        &books,
        &["vwap"],
        &OrderbookConfig::new(2, fx(0.001)).unwrap(),
    );
    assert!(matches!(r, Err(FeatureError::InsufficientDepth { requested: 2, available: 1 })));
}

#[test]
fn compute_features_with_config_matches_the_selector() {
    let books = vec![book(), shallow_book()];
    let c = OrderbookConfig::new(1, fx(0.5)).unwrap();
    let m = compute_features_with_config(&books, &ALL_SEVEN, &c).unwrap();
    let s = FeatureSelector::new(&ALL_SEVEN).unwrap();
    assert_eq!(m.len(), 2);
    assert_eq!(m[0], s.compute_values(&books[0], &c).unwrap());
    assert_eq!(m[1], s.compute_values(&books[1], &c).unwrap());
    assert_eq!(m[0].len(), 7);
}

#[test]
fn compute_single_orderbook_gives_one_row() {
    let c = OrderbookConfig::default();
    let row = compute_single_orderbook(&book(), &["microprice", "imb"], &c).unwrap();
    assert_eq!(row, vec![Fixed::from_raw(10_066_666_666), Fixed::from_raw(33_333_333)]);
    assert!(matches!(
        compute_single_orderbook(&book(), &["nope"], &c),
        Err(FeatureError::FeatureNotFound { .. })
    ));
    assert!(matches!(
        compute_single_orderbook(&empty_book(), &["imb"], &c),
        Err(FeatureError::EmptyOrderbook)
    ));
}

#[test]
fn invalid_configurations_are_refused() {
    assert!(matches!(
        OrderbookConfig::new(0, fx(0.001)),
        Err(FeatureError::InvalidConfig { .. })
    ));
    assert!(OrderbookConfig::new(1, fx(0.0)).is_ok());
    let c = OrderbookConfig { depth: 0, bps: fx(0.001) };
    assert!(!c.is_valid());
}
