//! The evaluation of a window of readings.

use perptrix::engine::aggregator::SignalAggregator;
use perptrix::engine::signal::Confidence;
use perptrix::indicators::momentum::{macd, rsi};
use perptrix::indicators::perp::{funding_rate, open_interest};
use perptrix::indicators::trend::{ema, supertrend};
use perptrix::indicators::volatility::{atr, bollinger};
use perptrix::indicators::volume::{obv, volume_profile};
use perptrix::models::signal::SignalDirection;
use perptrix::signals::engine::{CandleReading, SignalEngine, MIN_CANDLES};

/// A steadily rising market with rising open interest and flat positive
/// funding, after its `i`-th candle.
fn uptrend_reading(i: usize) -> CandleReading {
    CandleReading {
        ema_signal: if i == 0 {
            ema::EMATrendSignal::Neutral
        } else {
            ema::EMATrendSignal::StrongUptrend
        },
        supertrend_signal: match i {
            0 => supertrend::SuperTrendSignal::Bearish,
            1 => supertrend::SuperTrendSignal::BullishFlip,
            _ => supertrend::SuperTrendSignal::Bullish,
        },
        rsi_signal: if i < 14 { None } else { Some(rsi::RSISignal::Overbought) },
        macd_signal: if i == 0 {
            macd::MACDSignal::Neutral
        } else {
            macd::MACDSignal::BullishMomentum
        },
        bollinger_signal: bollinger::BollingerSignal::Neutral,
        volatility_regime: atr::VolatilityRegime::Normal,
        obv_signal: if i == 0 { obv::OBVSignal::Neutral } else { obv::OBVSignal::Confirmation },
        volume_profile_signal: volume_profile::VolumeProfileSignal::Neutral,
        oi_signal: Some(open_interest::OpenInterestSignal::Neutral),
        funding_signal: Some(funding_rate::FundingSignal::NeutralPositive),
    }
}

fn create_uptrend_readings(count: usize) -> Vec<CandleReading> {
    (0..count).map(uptrend_reading).collect()
}

fn as_float(confidence: Confidence) -> f64 {
    confidence.numerator as f64 / confidence.denominator as f64
}

#[test]
fn test_evaluate_insufficient_data() {
    let readings = create_uptrend_readings(10);
    assert!(SignalEngine::evaluate(&readings, "BTC", true).is_none());
}

#[test]
fn test_evaluate_sufficient_data() {
    let readings = create_uptrend_readings(250);
    let result = SignalEngine::evaluate(&readings, "BTC", true);
    assert!(result.is_some());
    let signal = result.unwrap();
    assert!(as_float(signal.confidence) >= 0.0);
    assert!(as_float(signal.confidence) <= 1.0);
}

#[test]
fn evaluation_needs_fifty_candles() {
    assert_eq!(MIN_CANDLES, 50);
    assert!(SignalEngine::evaluate(&[], "BTC", true).is_none());
    assert!(SignalEngine::evaluate(&create_uptrend_readings(49), "BTC", true).is_none());
    assert!(SignalEngine::evaluate(&create_uptrend_readings(50), "BTC", true).is_some());
}

#[test]
fn uptrend_is_long_or_neutral_with_reasons() {
    let signal = SignalEngine::evaluate(&create_uptrend_readings(250), "BTC", true).unwrap();
    assert!(matches!(signal.direction, SignalDirection::Long | SignalDirection::Neutral));
    assert!(!signal.reasons.is_empty());
    // trend 1 + 1, momentum -1 + 1, volume 1: total 3.
    assert_eq!(signal.direction, SignalDirection::Long);
    assert_eq!(signal.confidence, Confidence { numerator: 24, denominator: 120 });
    assert_eq!(signal.stop_loss_atr_tenths, 12);
    assert_eq!(signal.take_profit_atr_tenths, 20);
    assert_eq!(signal.symbol, "BTC");
    let trail: Vec<(&str, u32)> =
        signal.reasons.iter().map(|r| (r.description.as_str(), r.weight_pct)).collect();
    assert_eq!(
        trail,
        vec![
            ("Strong uptrend structure", 100),
            ("RSI overbought", 100),
            ("Volume confirms price action", 100),
            ("Risk level: Low", 50),
        ]
    );
}

#[test]
fn extreme_funding_lowers_perp_score_and_shifts_direction() {
    let base = create_uptrend_readings(250);
    let mut crowded = base.clone();
    for reading in crowded.iter_mut() {
        reading.funding_signal = Some(funding_rate::FundingSignal::ExtremeLongBias);
    }
    let aggregator = SignalAggregator::new();
    let base_scores = aggregator.aggregate(SignalEngine::fold(&base)).score_breakdown;
    let crowded_scores = aggregator.aggregate(SignalEngine::fold(&crowded)).score_breakdown;
    assert!(crowded_scores.perp_score < base_scores.perp_score);
    assert_eq!(crowded_scores.perp_score, -1);

    let signal = SignalEngine::evaluate(&crowded, "BTC", true).unwrap();
    assert!(matches!(signal.direction, SignalDirection::Short | SignalDirection::Neutral));
    assert_eq!(signal.stop_loss_atr_tenths, 0);
    assert_eq!(signal.take_profit_atr_tenths, 0);
    let last = signal.reasons.last().unwrap();
    assert_eq!(last.description, "Risk level: Medium");
    assert_eq!(last.weight_pct, 50);
}

#[test]
fn no_sizing_without_positive_atr() {
    let signal = SignalEngine::evaluate(&create_uptrend_readings(60), "ETH", false).unwrap();
    assert_eq!(signal.direction, SignalDirection::Long);
    assert_eq!(signal.stop_loss_atr_tenths, 0);
    assert_eq!(signal.take_profit_atr_tenths, 0);
    assert_eq!(signal.symbol, "ETH");
}

#[test]
fn evaluating_twice_gives_the_same() {
    let readings = create_uptrend_readings(120);
    let first = SignalEngine::evaluate(&readings, "BTC", true).unwrap();
    let second = SignalEngine::evaluate(&readings, "BTC", true).unwrap();
    assert_eq!(first.direction, second.direction);
    assert_eq!(first.confidence, second.confidence);
    assert_eq!(first.stop_loss_atr_tenths, second.stop_loss_atr_tenths);
    assert_eq!(first.take_profit_atr_tenths, second.take_profit_atr_tenths);
    assert_eq!(first.symbol, second.symbol);
    assert_eq!(first.reasons.len(), second.reasons.len());
    for (a, b) in first.reasons.iter().zip(second.reasons.iter()) {
        assert_eq!(a.description, b.description);
        assert_eq!(a.weight_pct, b.weight_pct);
    }
}

#[test]
fn fold_keeps_the_last_reading_of_each_tracker() {
    let start = SignalEngine::initial();
    assert_eq!(start.supertrend_signal, supertrend::SuperTrendSignal::Bearish);
    assert_eq!(start.rsi_signal, rsi::RSISignal::Neutral);
    assert_eq!(start.volatility_regime, atr::VolatilityRegime::Normal);
    assert_eq!(SignalEngine::fold(&[]).funding_signal, funding_rate::FundingSignal::Neutral);

    let mut readings = create_uptrend_readings(20);
    readings[15].oi_signal = Some(open_interest::OpenInterestSignal::BullishExpansion);
    readings[16].rsi_signal = Some(rsi::RSISignal::BearishDivergence);
    readings[16].macd_signal = macd::MACDSignal::BearishCross;
    for reading in readings.iter_mut().skip(16) {
        reading.oi_signal = None;
    }
    for reading in readings.iter_mut().skip(17) {
        reading.rsi_signal = None;
        reading.funding_signal = None;
    }
    let signals = SignalEngine::fold(&readings);
    // A tracker that stops reporting keeps what it said last.
    assert_eq!(signals.oi_signal, open_interest::OpenInterestSignal::BullishExpansion);
    assert_eq!(signals.rsi_signal, rsi::RSISignal::BearishDivergence);
    assert_eq!(signals.funding_signal, funding_rate::FundingSignal::NeutralPositive);
    // A tracker that reports on every candle shows only its last reading.
    assert_eq!(signals.macd_signal, macd::MACDSignal::BullishMomentum);
    assert_eq!(signals.ema_signal, ema::EMATrendSignal::StrongUptrend);
}

#[test]
fn observe_replaces_what_is_reported() {
    let start = SignalEngine::initial();
    let mut reading = uptrend_reading(1);
    reading.rsi_signal = None;
    reading.oi_signal = None;
    reading.funding_signal = None;
    let next = SignalEngine::observe(start, &reading);
    assert_eq!(next.supertrend_signal, supertrend::SuperTrendSignal::BullishFlip);
    assert_eq!(next.rsi_signal, rsi::RSISignal::Neutral);
    assert_eq!(next.oi_signal, open_interest::OpenInterestSignal::Neutral);
    assert_eq!(next.funding_signal, funding_rate::FundingSignal::Neutral);
    let after = SignalEngine::observe(next, &uptrend_reading(20));
    assert_eq!(after.rsi_signal, rsi::RSISignal::Overbought);
    assert_eq!(after.funding_signal, funding_rate::FundingSignal::NeutralPositive);
}
