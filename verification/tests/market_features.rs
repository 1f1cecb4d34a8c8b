use convective_ml::composite::{PriceImpactFeature, TradeFlowToxicityFeature};
use convective_ml::errors::FeatureError;
use convective_ml::funding::FundingRateFeature;
use convective_ml::interface::{Feature, FeatureCategory, MarketConfig};
use convective_ml::liquidations::{LiquidationImbalanceFeature, LiquidationPressureFeature};
use convective_ml::market::{
    FundingRate, Level, Liquidation, MarketSnapshot, Orderbook, Trade,
};
use convective_ml::numeric::Fixed;
use convective_ml::open_interest::OIChangeFeature;
use convective_ml::trades::{TradeDirectionImbalanceFeature, TradeIntensityFeature};

fn fx(x: f64) -> Fixed {
    Fixed::from_raw((x * 1e8).round() as i128)
}

fn trade(price: f64, amount: f64, side: &str) -> Trade {
    Trade::new(fx(price), fx(amount), side.to_string())
}

fn liq(price: f64, amount: f64, side: &str) -> Liquidation {
    Liquidation::new(fx(price), fx(amount), side.to_string())
}

fn book() -> Orderbook {
    Orderbook::new(
        vec![Level::new(fx(100.0), fx(2.0)), Level::new(fx(99.0), fx(1.0))],
        vec![Level::new(fx(101.0), fx(1.0)), Level::new(fx(102.0), fx(3.0))],
    )
}

fn snapshot(orderbook: Option<Orderbook>, trades: Vec<Trade>) -> MarketSnapshot {
    MarketSnapshot {
        orderbook,
        trades,
        liquidations: vec![],
        funding_rate: None,
        open_interest: None,
    }
}

fn two_trades() -> Vec<Trade> {
    vec![trade(101.0, 2.0, "Buy"), trade(99.0, 1.0, "Sell")]
}

#[test]
fn trade_intensity_sums_amounts() {
    let c = MarketConfig::default();
    let v = TradeIntensityFeature.compute(&two_trades(), &c).unwrap();
    assert_eq!(v, fx(3.0));
}

#[test]
fn trade_intensity_counts_every_side_text() {
    let c = MarketConfig::default();
    let trades = vec![trade(1.0, 2.0, "Buy"), trade(1.0, 0.5, "buy"), trade(1.0, 0.25, "")];
    assert_eq!(TradeIntensityFeature.compute(&trades, &c).unwrap(), fx(2.75));
}

#[test]
fn trade_direction_imbalance_of_two_trades() {
    let c = MarketConfig::default();
    let v = TradeDirectionImbalanceFeature.compute(&two_trades(), &c).unwrap();
    assert_eq!(v, Fixed::from_raw(33_333_333));
}

#[test]
fn trade_direction_imbalance_is_negative_when_selling_dominates() {
    let c = MarketConfig::default();
    let trades = vec![trade(101.0, 1.0, "Buy"), trade(99.0, 2.0, "Sell")];
    let v = TradeDirectionImbalanceFeature.compute(&trades, &c).unwrap();
    assert_eq!(v, Fixed::from_raw(-33_333_333));
}

#[test]
fn trade_direction_imbalance_reaches_both_bounds() {
    let c = MarketConfig::default();
    let buys = vec![trade(1.0, 4.0, "Buy")];
    let sells = vec![trade(1.0, 4.0, "Sell")];
    assert_eq!(TradeDirectionImbalanceFeature.compute(&buys, &c).unwrap(), fx(1.0));
    assert_eq!(TradeDirectionImbalanceFeature.compute(&sells, &c).unwrap(), fx(-1.0));
}

#[test]
fn unrecognized_sides_count_toward_neither_volume() {
    let c = MarketConfig::default();
    let trades = vec![
        trade(101.0, 2.0, "Buy"),
        trade(99.0, 1.0, "Sell"),
        trade(100.0, 50.0, "buy"),
        trade(100.0, 50.0, "SELL"),
        trade(100.0, 50.0, "Unknown"),
    ];
    // The three odd trades change neither the difference nor the total.
    let v = TradeDirectionImbalanceFeature.compute(&trades, &c).unwrap();
    assert_eq!(v, Fixed::from_raw(33_333_333));
    let snap = snapshot(None, trades);
    let t = TradeFlowToxicityFeature.compute(&snap, &c).unwrap();
    assert_eq!(t, Fixed::from_raw(33_333_333));
}

#[test]
fn only_unrecognized_sides_give_zero() {
    let c = MarketConfig::default();
    let trades = vec![trade(100.0, 5.0, "bid"), trade(100.0, 7.0, "ask")];
    assert_eq!(TradeDirectionImbalanceFeature.compute(&trades, &c).unwrap(), fx(0.0));
    let liqs = vec![liq(100.0, 5.0, "long")];
    assert_eq!(LiquidationImbalanceFeature.compute(&liqs, &c).unwrap(), fx(0.0));
    let snap = snapshot(None, trades);
    assert_eq!(TradeFlowToxicityFeature.compute(&snap, &c).unwrap(), fx(0.0));
}

#[test]
fn flow_features_are_zero_without_fills() {
    let c = MarketConfig::default();
    let no_trades: Vec<Trade> = vec![];
    let no_liqs: Vec<Liquidation> = vec![];
    assert_eq!(TradeIntensityFeature.compute(&no_trades, &c).unwrap(), fx(0.0));
    assert_eq!(TradeDirectionImbalanceFeature.compute(&no_trades, &c).unwrap(), fx(0.0));
    assert_eq!(LiquidationPressureFeature.compute(&no_liqs, &c).unwrap(), fx(0.0));
    assert_eq!(LiquidationImbalanceFeature.compute(&no_liqs, &c).unwrap(), fx(0.0));
    let snap = snapshot(Some(book()), vec![]);
    assert_eq!(TradeFlowToxicityFeature.compute(&snap, &c).unwrap(), fx(0.0));
    assert_eq!(PriceImpactFeature.compute(&snap, &c).unwrap(), fx(0.0));
}

#[test]
fn liquidation_pressure_is_total_notional() {
    let c = MarketConfig::default();
    let liqs = vec![liq(100.0, 2.0, "Buy"), liq(50.5, 0.5, "Sell"), liq(10.0, 1.0, "other")];
    // 200 + 25.25 + 10
    assert_eq!(LiquidationPressureFeature.compute(&liqs, &c).unwrap(), fx(235.25));
}

#[test]
fn liquidation_pressure_is_cut_off_after_eight_decimals() {
    let c = MarketConfig::default();
    let liqs = vec![Liquidation::new(
        Fixed::from_raw(100_000_001),
        Fixed::from_raw(100_000_001),
        "Buy".to_string(),
    )];
    // 1.00000001 squared is 1.0000000200000001.
    assert_eq!(LiquidationPressureFeature.compute(&liqs, &c).unwrap(), Fixed::from_raw(100_000_002));
}

#[test]
fn liquidation_imbalance_of_mixed_sides() {
    let c = MarketConfig::default();
    let liqs = vec![liq(100.0, 3.0, "Buy"), liq(100.0, 1.0, "Sell")];
    assert_eq!(LiquidationImbalanceFeature.compute(&liqs, &c).unwrap(), fx(0.5));
    let liqs = vec![liq(100.0, 1.0, "Buy"), liq(100.0, 3.0, "Sell")];
    assert_eq!(LiquidationImbalanceFeature.compute(&liqs, &c).unwrap(), fx(-0.5));
}

#[test]
fn funding_rate_is_scaled_to_basis_points() {
    let c = MarketConfig::default();
    let fr = FundingRate::new(fx(0.0001));
    assert_eq!(FundingRateFeature.compute(&fr, &c).unwrap(), fx(1.0));
    let fr = FundingRate::new(fx(-0.00025));
    assert_eq!(FundingRateFeature.compute(&fr, &c).unwrap(), fx(-2.5));
}

#[test]
fn oi_change_is_a_percentage() {
    let c = MarketConfig::default();
    assert_eq!(OIChangeFeature.compute(&[fx(100.0), fx(110.0)], &c).unwrap(), fx(10.0));
    assert_eq!(OIChangeFeature.compute(&[fx(100.0), fx(75.0)], &c).unwrap(), fx(-25.0));
    assert_eq!(OIChangeFeature.compute(&[fx(42.0), fx(42.0)], &c).unwrap(), fx(0.0));
    // (1 - 3) / 3 * 100 = -66.666...
    assert_eq!(
        OIChangeFeature.compute(&[fx(3.0), fx(1.0)], &c).unwrap(),
        Fixed::from_raw(-6_666_666_666)
    );
}

#[test]
fn oi_change_with_negative_base() {
    let c = MarketConfig::default();
    // (-3 - (-2)) / (-2) * 100 = 50
    assert_eq!(OIChangeFeature.compute(&[fx(-2.0), fx(-3.0)], &c).unwrap(), fx(50.0));
    // (1 - (-3)) / (-3) * 100 = -133.333...
    assert_eq!(
        OIChangeFeature.compute(&[fx(-3.0), fx(1.0)], &c).unwrap(),
        Fixed::from_raw(-13_333_333_333)
    );
}

#[test]
fn oi_change_from_zero_base() {
    let c = MarketConfig::default();
    assert_eq!(OIChangeFeature.compute(&[fx(0.0), fx(0.0)], &c).unwrap(), fx(0.0));
    match OIChangeFeature.compute(&[fx(0.0), fx(5.0)], &c) {
        Err(FeatureError::ComputationError { message }) => {
            assert_eq!(message, "previous OI is zero, cannot compute percentage change");
        }
        other => panic!("unexpected result {:?}", other),
    }
}

#[test]
fn price_impact_of_two_trades() {
    // Mid price 100.5; ((101 - 100.5) + (99 - 100.5)) / 2 = -0.5
    let c = MarketConfig::default();
    let snap = snapshot(Some(book()), two_trades());
    assert_eq!(PriceImpactFeature.compute(&snap, &c).unwrap(), fx(-0.5));
}

#[test]
fn price_impact_above_mid_is_positive() {
    let c = MarketConfig::default();
    let snap = snapshot(
        Some(book()),
        vec![trade(101.0, 1.0, "Buy"), trade(101.0, 1.0, "Buy"), trade(100.0, 1.0, "Sell")],
    );
    // (0.5 + 0.5 - 0.5) / 3 = 0.1666...
    assert_eq!(PriceImpactFeature.compute(&snap, &c).unwrap(), Fixed::from_raw(16_666_666));
}

#[test]
fn price_impact_needs_both_sides_of_a_book() {
    let c = MarketConfig::default();
    let none = snapshot(None, two_trades());
    assert!(matches!(PriceImpactFeature.compute(&none, &c), Err(FeatureError::EmptyOrderbook)));
    let no_asks = snapshot(
        Some(Orderbook::new(vec![Level::new(fx(100.0), fx(1.0))], vec![])),
        two_trades(),
    );
    assert!(matches!(PriceImpactFeature.compute(&no_asks, &c), Err(FeatureError::EmptyOrderbook)));
    let no_bids = snapshot(
        Some(Orderbook::new(vec![], vec![Level::new(fx(100.0), fx(1.0))])),
        vec![],
    );
    assert!(matches!(PriceImpactFeature.compute(&no_bids, &c), Err(FeatureError::EmptyOrderbook)));
}

#[test]
fn trade_flow_toxicity_of_two_trades() {
    let c = MarketConfig::default();
    let snap = snapshot(None, two_trades());
    assert_eq!(TradeFlowToxicityFeature.compute(&snap, &c).unwrap(), Fixed::from_raw(33_333_333));
    let reversed = snapshot(None, vec![trade(101.0, 1.0, "Buy"), trade(99.0, 2.0, "Sell")]);
    assert_eq!(
        TradeFlowToxicityFeature.compute(&reversed, &c).unwrap(),
        Fixed::from_raw(33_333_333)
    );
    let one_sided = snapshot(None, vec![trade(101.0, 1.0, "Sell")]);
    assert_eq!(TradeFlowToxicityFeature.compute(&one_sided, &c).unwrap(), fx(1.0));
    let balanced = snapshot(None, vec![trade(101.0, 1.0, "Sell"), trade(101.0, 1.0, "Buy")]);
    assert_eq!(TradeFlowToxicityFeature.compute(&balanced, &c).unwrap(), fx(0.0));
}

#[test]
fn market_feature_identities() {
    assert_eq!(TradeIntensityFeature.name(), "trade_intensity");
    assert_eq!(TradeDirectionImbalanceFeature.name(), "trade_direction_imbalance");
    assert_eq!(LiquidationPressureFeature.name(), "liquidation_pressure");
    assert_eq!(LiquidationImbalanceFeature.name(), "liquidation_imbalance");
    assert_eq!(FundingRateFeature.name(), "funding_rate");
    assert_eq!(OIChangeFeature.name(), "oi_change");
    assert_eq!(PriceImpactFeature.name(), "price_impact");
    assert_eq!(TradeFlowToxicityFeature.name(), "trade_flow_toxicity");
    assert_eq!(TradeIntensityFeature.category(), FeatureCategory::Flow);
    assert_eq!(TradeDirectionImbalanceFeature.category(), FeatureCategory::Flow);
    assert_eq!(LiquidationPressureFeature.category(), FeatureCategory::Flow);
    assert_eq!(LiquidationImbalanceFeature.category(), FeatureCategory::Imbalance);
    assert_eq!(FundingRateFeature.category(), FeatureCategory::Flow);
    assert_eq!(OIChangeFeature.category(), FeatureCategory::Volume);
    assert_eq!(PriceImpactFeature.category(), FeatureCategory::Liquidity);
    assert_eq!(TradeFlowToxicityFeature.category(), FeatureCategory::Flow);
    assert_eq!(PriceImpactFeature.description(), "Mean trade price deviation from midprice");
    assert!(OIChangeFeature.dependencies().is_empty());
    assert_eq!(FundingRateFeature.default_config(), MarketConfig::default());
}
