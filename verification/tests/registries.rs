use convective_ml::interface::FeatureCategory;
use convective_ml::selector::OrderbookFeature;
use convective_ml::registry::{
    liquidation_features, market_features, orderbook_features, trade_features, FeatureRegistry,
};

#[test]
fn new_registry_is_empty() {
    let r = FeatureRegistry::new();
    assert!(r.list_features().is_empty());
    assert!(r.list_by_category(FeatureCategory::Price).is_empty());
    assert!(!r.feature_exists("spread"));
    assert_eq!(r.get_category("spread"), None);
    let d = FeatureRegistry::default();
    assert!(d.list_features().is_empty());
}

#[test]
fn registering_makes_a_feature_known() {
    let mut r = FeatureRegistry::new();
    r.register_feature("alpha", FeatureCategory::Timing);
    assert!(r.feature_exists("alpha"));
    assert!(!r.feature_exists("Alpha"));
    assert_eq!(r.get_category("alpha"), Some(FeatureCategory::Timing));
    assert_eq!(r.list_features(), vec!["alpha".to_string()]);
    assert_eq!(r.list_by_category(FeatureCategory::Timing), vec!["alpha".to_string()]);
    assert!(r.list_by_category(FeatureCategory::Volatility).is_empty());
}

#[test]
fn registering_again_takes_the_new_category() {
    let mut r = FeatureRegistry::new();
    r.register_feature("alpha", FeatureCategory::Timing);
    r.register_feature("beta", FeatureCategory::Timing);
    r.register_feature("alpha", FeatureCategory::Flow);
    assert_eq!(r.get_category("alpha"), Some(FeatureCategory::Flow));
    assert_eq!(r.get_category("beta"), Some(FeatureCategory::Timing));
    assert_eq!(r.list_features(), vec!["alpha".to_string(), "beta".to_string()]);
    assert_eq!(
        r.list_by_category(FeatureCategory::Timing),
        vec!["alpha".to_string(), "beta".to_string()]
    );
    assert_eq!(r.list_by_category(FeatureCategory::Flow), vec!["alpha".to_string()]);
}

#[test]
fn registering_twice_under_one_category_lists_twice() {
    let mut r = FeatureRegistry::new();
    r.register_feature("alpha", FeatureCategory::Price);
    r.register_feature("alpha", FeatureCategory::Price);
    assert_eq!(
        r.list_by_category(FeatureCategory::Price),
        vec!["alpha".to_string(), "alpha".to_string()]
    );
    assert_eq!(r.list_features(), vec!["alpha".to_string()]);
}

#[test]
fn orderbook_registry_holds_the_seven_book_features() {
    let r = orderbook_features();
    let mut names = r.list_features();
    names.sort();
    assert_eq!(names, vec!["imb", "microprice", "midprice", "spread", "tav", "vwap", "w_midprice"]);
    assert_eq!(r.get_category("spread"), Some(FeatureCategory::Spread));
    assert_eq!(r.get_category("midprice"), Some(FeatureCategory::Price));
    assert_eq!(r.get_category("w_midprice"), Some(FeatureCategory::Price));
    assert_eq!(r.get_category("microprice"), Some(FeatureCategory::Price));
    assert_eq!(r.get_category("vwap"), Some(FeatureCategory::Volume));
    assert_eq!(r.get_category("imb"), Some(FeatureCategory::Imbalance));
    assert_eq!(r.get_category("tav"), Some(FeatureCategory::Volume));
    assert_eq!(
        r.list_by_category(FeatureCategory::Price),
        vec!["midprice", "w_midprice", "microprice"]
    );
    assert_eq!(r.list_by_category(FeatureCategory::Volume), vec!["vwap", "tav"]);
    assert!(!r.feature_exists("trade_intensity"));
}

#[test]
fn trade_registry_holds_the_trade_features() {
    let r = trade_features();
    assert_eq!(r.list_features(), vec!["trade_intensity", "trade_direction_imbalance"]);
    assert_eq!(
        r.list_by_category(FeatureCategory::Flow),
        vec!["trade_intensity", "trade_direction_imbalance"]
    );
    assert!(!r.feature_exists("spread"));
}

#[test]
fn liquidation_registry_holds_the_liquidation_features() {
    let r = liquidation_features();
    assert_eq!(r.list_features(), vec!["liquidation_pressure", "liquidation_imbalance"]);
    assert_eq!(r.get_category("liquidation_pressure"), Some(FeatureCategory::Flow));
    assert_eq!(r.get_category("liquidation_imbalance"), Some(FeatureCategory::Imbalance));
}

#[test]
fn market_registry_holds_the_cross_source_features() {
    let r = market_features();
    assert_eq!(
        r.list_features(),
        vec!["funding_rate", "oi_change", "price_impact", "trade_flow_toxicity"]
    );
    assert_eq!(r.get_category("funding_rate"), Some(FeatureCategory::Flow));
    assert_eq!(r.get_category("oi_change"), Some(FeatureCategory::Volume));
    assert_eq!(r.get_category("price_impact"), Some(FeatureCategory::Liquidity));
    assert_eq!(r.get_category("trade_flow_toxicity"), Some(FeatureCategory::Flow));
    assert_eq!(r.list_by_category(FeatureCategory::Flow), vec!["funding_rate", "trade_flow_toxicity"]);
}

#[test]
fn registries_are_independent() {
    let mut a = orderbook_features();
    let b = orderbook_features();
    a.register_feature("extra", FeatureCategory::Timing);
    assert!(a.feature_exists("extra"));
    assert!(!b.feature_exists("extra"));
}

#[test]
fn orderbook_registry_agrees_with_the_feature_kinds() {
    let r = orderbook_features();
    let kinds = [
        OrderbookFeature::Spread,
        OrderbookFeature::Midprice,
        OrderbookFeature::WeightedMidprice,
        OrderbookFeature::Microprice,
        OrderbookFeature::Vwap,
        OrderbookFeature::Tav,
        OrderbookFeature::Imbalance,
    ];
    for kind in kinds {
        assert_eq!(r.get_category(kind.name()), Some(kind.category()));
        assert!(r.list_by_category(kind.category()).contains(&kind.name().to_string()));
    }
    for name in r.list_features() {
        assert!(OrderbookFeature::from_name(&name).is_some());
    }
}
