//! Direction by thresholds and sizing by the average true range.

use perptrix::engine::signal::Position;
use perptrix::models::signal::SignalDirection;
use perptrix::signals::decision::{DirectionThresholds, StopLossTakeProfit};

#[test]
fn test_determine_direction_long() {
    let score = 65;
    assert_eq!(
        DirectionThresholds::determine_direction(score),
        SignalDirection::Long
    );
}

#[test]
fn test_determine_direction_short() {
    let score = 35;
    assert_eq!(
        DirectionThresholds::determine_direction(score),
        SignalDirection::Short
    );
}

#[test]
fn test_determine_direction_neutral() {
    let score = 50;
    assert_eq!(
        DirectionThresholds::determine_direction(score),
        SignalDirection::Neutral
    );
}

#[test]
fn direction_cutoffs_are_neutral() {
    assert_eq!(DirectionThresholds::LONG_THRESHOLD_PCT, 60);
    assert_eq!(DirectionThresholds::SHORT_THRESHOLD_PCT, 40);
    assert_eq!(DirectionThresholds::determine_direction(60), SignalDirection::Neutral);
    assert_eq!(DirectionThresholds::determine_direction(61), SignalDirection::Long);
    assert_eq!(DirectionThresholds::determine_direction(40), SignalDirection::Neutral);
    assert_eq!(DirectionThresholds::determine_direction(39), SignalDirection::Short);
    assert_eq!(DirectionThresholds::determine_direction(0), SignalDirection::Short);
    assert_eq!(DirectionThresholds::determine_direction(u32::MAX), SignalDirection::Long);
}

#[test]
fn test_to_percentage() {
    assert_eq!(DirectionThresholds::to_percentage(-100), 0);
    assert_eq!(DirectionThresholds::to_percentage(0), 50);
    assert_eq!(DirectionThresholds::to_percentage(100), 100);
}

#[test]
fn test_calculate_sl_tp() {
    let atr = 10.0;
    let price = 100.0;
    let (sl_tenths, tp_tenths) = StopLossTakeProfit::atr_multiples(SignalDirection::Long, true);
    let sl = (atr * (sl_tenths as f64 / 10.0) / price) * 100.0;
    let tp = (atr * (tp_tenths as f64 / 10.0) / price) * 100.0;
    assert_eq!(sl, 12.0);
    assert_eq!(tp, 20.0);
}

#[test]
fn sizing_only_for_a_side_with_positive_atr() {
    assert_eq!(StopLossTakeProfit::STOP_LOSS_ATR_TENTHS, 12);
    assert_eq!(StopLossTakeProfit::TAKE_PROFIT_ATR_TENTHS, 20);
    assert_eq!(StopLossTakeProfit::atr_multiples(SignalDirection::Long, true), (12, 20));
    assert_eq!(StopLossTakeProfit::atr_multiples(SignalDirection::Short, true), (12, 20));
    assert_eq!(StopLossTakeProfit::atr_multiples(SignalDirection::Neutral, true), (0, 0));
    assert_eq!(StopLossTakeProfit::atr_multiples(SignalDirection::Long, false), (0, 0));
    assert_eq!(StopLossTakeProfit::atr_multiples(SignalDirection::Short, false), (0, 0));
    assert_eq!(StopLossTakeProfit::atr_multiples(SignalDirection::Neutral, false), (0, 0));
}

#[test]
fn direction_mirrors_position() {
    assert_eq!(SignalDirection::from_position(Position::Long), SignalDirection::Long);
    assert_eq!(SignalDirection::from_position(Position::Short), SignalDirection::Short);
    assert_eq!(SignalDirection::from_position(Position::Neutral), SignalDirection::Neutral);
}
