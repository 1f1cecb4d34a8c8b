use convective_ml::datasets::{DatasetError, ExpConfig, Features, Models};
use convective_ml::errors::FeatureError;
use convective_ml::functions::{CrossEntropy, CrossEntropyBuilder, RegType};
use convective_ml::interface::MarketConfig;
use convective_ml::market::{
    liquidations_are_valid, side_is_valid, trades_are_valid, Level, Liquidation, Orderbook, Trade,
};
use convective_ml::metrics::MetricUsage;
use convective_ml::models::ModelMode;
use convective_ml::numeric::{div_trunc, mul_in_range, Fixed, MAX_ITEMS, MAX_MAGNITUDE, SCALE};
use convective_ml::text::{str_eq, usize_text};

#[test]
fn fixed_point_constructors() {
    assert_eq!(Fixed::zero().raw(), 0);
    assert_eq!(Fixed::from_raw(-7).raw(), -7);
    assert_eq!(Fixed::from_int(3).raw(), 300_000_000);
    assert_eq!(Fixed::from_int(-3).raw(), -300_000_000);
    assert_eq!(Fixed::from_int(i64::MAX).raw(), (i64::MAX as i128) * 100_000_000);
    assert_eq!(SCALE, 100_000_000);
}

#[test]
fn fixed_point_range_tests() {
    assert!(Fixed::from_raw(MAX_MAGNITUDE).is_bounded());
    assert!(Fixed::from_raw(-MAX_MAGNITUDE).is_bounded());
    assert!(!Fixed::from_raw(MAX_MAGNITUDE + 1).is_bounded());
    assert!(!Fixed::from_raw(-MAX_MAGNITUDE - 1).is_bounded());
    assert!(Fixed::from_raw(0).is_bounded_nonneg());
    assert!(Fixed::from_raw(MAX_MAGNITUDE).is_bounded_nonneg());
    assert!(!Fixed::from_raw(-1).is_bounded_nonneg());
    assert!(!Fixed::from_raw(MAX_MAGNITUDE + 1).is_bounded_nonneg());
}

#[test]
fn division_is_cut_off_toward_zero() {
    assert_eq!(div_trunc(7, 2), 3);
    assert_eq!(div_trunc(-7, 2), -3);
    assert_eq!(div_trunc(6, 3), 2);
    assert_eq!(div_trunc(-6, 3), -2);
    assert_eq!(div_trunc(0, 5), 0);
    assert_eq!(div_trunc(-1, 5), 0);
    assert_eq!(div_trunc(i128::MIN, 1), i128::MIN);
}

#[test]
fn products_of_values_in_range() {
    assert_eq!(mul_in_range(3, -4), -12);
    assert_eq!(
        mul_in_range(MAX_MAGNITUDE, -MAX_MAGNITUDE),
        -100_000_000_000_000_000_000_000_000_000_000
    );
}

#[test]
fn text_equality_is_exact() {
    assert!(str_eq("Buy", "Buy"));
    assert!(!str_eq("Buy", "buy"));
    assert!(!str_eq("Buy", "Buy "));
    assert!(!str_eq("Buy", "Bu"));
    assert!(str_eq("", ""));
    assert!(!str_eq("", "a"));
    assert!(str_eq("prix élevé", "prix élevé"));
    assert!(!str_eq("prix élevé", "prix eleve"));
}

#[test]
fn whole_numbers_as_decimal_text() {
    assert_eq!(usize_text(0), "0");
    assert_eq!(usize_text(7), "7");
    assert_eq!(usize_text(10), "10");
    assert_eq!(usize_text(1234567890), "1234567890");
    assert_eq!(usize_text(usize::MAX), usize::MAX.to_string());
}

#[test]
fn failures_have_messages() {
    assert_eq!(FeatureError::EmptyOrderbook.to_text(), "Empty orderbook");
    assert_eq!(FeatureError::NoTrades.to_text(), "No trades in period");
    assert_eq!(FeatureError::NoLiquidations.to_text(), "No liquidations in period");
    assert_eq!(FeatureError::ZeroVolume.to_text(), "Zero volume");
    assert_eq!(
        FeatureError::InsufficientDepth { requested: 10, available: 3 }.to_text(),
        "Insufficient depth: requested 10, available 3"
    );
    assert_eq!(
        FeatureError::InvalidConfig { message: "depth must be positive".to_string() }.to_text(),
        "Invalid configuration: depth must be positive"
    );
    assert_eq!(
        FeatureError::ComputationError { message: "bad".to_string() }.to_text(),
        "Computation error: bad"
    );
    assert_eq!(
        FeatureError::FeatureNotFound { name: "x".to_string() }.to_text(),
        "Feature not found: x"
    );
}

#[test]
fn market_data_is_validated_at_run_time() {
    let good = Level::new(Fixed::from_int(1), Fixed::from_int(0));
    let negative = Level::new(Fixed::from_int(1), Fixed::from_raw(-1));
    let negative_price = Level::new(Fixed::from_int(-1), Fixed::from_int(1));
    assert!(good.is_valid());
    assert!(!negative.is_valid());
    assert!(negative_price.is_valid());
    assert!(side_is_valid(&vec![good, negative_price]));
    assert!(!side_is_valid(&vec![good, negative]));
    assert!(side_is_valid(&vec![]));
    assert!(Orderbook::new(vec![good], vec![good]).is_valid());
    assert!(!Orderbook::new(vec![good], vec![negative]).is_valid());
    assert!(!Orderbook::new(vec![negative], vec![good]).is_valid());

    let trade = Trade::new(Fixed::from_int(1), Fixed::from_int(1), "Buy".to_string());
    let bad_trade = Trade::new(Fixed::from_int(1), Fixed::from_raw(-1), "Buy".to_string());
    assert!(trade.is_valid());
    assert!(!bad_trade.is_valid());
    assert!(trades_are_valid(&[trade.clone()]));
    assert!(!trades_are_valid(&[trade.clone(), bad_trade]));
    let liq = Liquidation::new(Fixed::from_int(1), Fixed::from_int(1), "Sell".to_string());
    let bad_liq = Liquidation::new(Fixed::from_raw(MAX_MAGNITUDE + 1), Fixed::from_int(1), "Sell".to_string());
    assert!(liq.is_valid());
    assert!(!bad_liq.is_valid());
    assert!(liquidations_are_valid(&[liq.clone()]));
    assert!(!liquidations_are_valid(&[bad_liq, liq]));
}

#[test]
fn sides_longer_than_the_limit_are_invalid() {
    let level = Level::new(Fixed::from_int(1), Fixed::from_int(1));
    let at_limit = vec![level; MAX_ITEMS];
    assert!(side_is_valid(&at_limit));
    let over_limit = vec![level; MAX_ITEMS + 1];
    assert!(!side_is_valid(&over_limit));
}

#[test]
fn market_configuration_is_validated() {
    assert!(MarketConfig::default().is_valid());
    assert_eq!(MarketConfig::default().depth, 5);
    assert_eq!(MarketConfig::default().bps, Fixed::from_raw(100_000));
    assert!(matches!(
        MarketConfig::new(0, Fixed::zero()),
        Err(FeatureError::InvalidConfig { .. })
    ));
    assert!(matches!(
        MarketConfig::new(1, Fixed::from_raw(MAX_MAGNITUDE + 1)),
        Err(FeatureError::InvalidConfig { .. })
    ));
    let c = MarketConfig::new(3, Fixed::from_raw(5)).unwrap();
    let o = c.orderbook_config();
    assert_eq!((o.depth, o.bps), (3, Fixed::from_raw(5)));
}

#[test]
fn cross_entropy_builder_needs_an_id() {
    let built = CrossEntropy::builder().id("loss_a").build().unwrap();
    assert_eq!(built.id, "loss_a");
    let replaced = CrossEntropyBuilder::new().id("first").id("second").build().unwrap();
    assert_eq!(replaced.id, "second");
    assert_eq!(CrossEntropyBuilder::new().build().unwrap_err(), "Missing id value");
    assert_eq!(CrossEntropyBuilder::default().build().unwrap_err(), "Missing id value");
}

#[test]
fn plain_enumerations() {
    assert_ne!(RegType::L1, RegType::L2);
    assert_ne!(RegType::L2, RegType::Elasticnet);
    assert_ne!(ModelMode::Training, ModelMode::Inference);
    assert_ne!(MetricUsage::Class, MetricUsage::Regress);
    assert_ne!(MetricUsage::Regress, MetricUsage::Multiple);
    assert_eq!(Features::OB, Features::OB);
    assert_ne!(Models::Uniform, Models::GBM);
    assert_ne!(Models::Hawkes, Models::GD);
    assert_eq!(DatasetError::DatasetFailure.text(), "The Datset Generator function failed");
    let exp = ExpConfig { id: "e1".to_string(), n_progressions: 3, n_agents: None };
    assert_eq!(exp.clone().n_progressions, 3);
}
