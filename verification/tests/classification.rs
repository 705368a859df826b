//! The categorical reading of each tracker from the signs of what it
//! measures.

use perptrix::common::sign::Sign;
use perptrix::indicators::momentum::macd::{MACDSignal, MacdComparison};
use perptrix::indicators::momentum::rsi::{RSISignal, RSIZone};
use perptrix::indicators::perp::open_interest::{
    OpenInterestChange, OpenInterestMove, OpenInterestSignal,
};
use perptrix::indicators::trend::ema::{CrossoverComparison, EMATrendSignal};
use perptrix::indicators::trend::supertrend::{ActiveBand, SuperTrendSignal};
use perptrix::indicators::volatility::bollinger::{BandPosition, BollingerSignal};
use perptrix::indicators::volume::obv::OBVSignal;
use perptrix::indicators::volume::volume_profile::{VolumeLevel, VolumeProfileSignal};

const SIGNS: [Sign; 3] = [Sign::Negative, Sign::Zero, Sign::Positive];

fn sign(value: f64) -> Sign {
    if value > 0.0 {
        Sign::Positive
    } else if value < 0.0 {
        Sign::Negative
    } else {
        Sign::Zero
    }
}

#[test]
fn ema_first_candle_is_neutral() {
    assert_eq!(EMATrendSignal::classify(None), EMATrendSignal::Neutral);
}

#[test]
fn ema_classification_matches_the_comparisons() {
    // Every combination of signs against the comparisons written out on
    // numbers that have those signs.
    for previous_spread in SIGNS {
        for spread in SIGNS {
            for price_to_fast in SIGNS {
                for fast_slope in SIGNS {
                    let value = |s: Sign| match s {
                        Sign::Negative => -1.0,
                        Sign::Zero => 0.0,
                        Sign::Positive => 1.0,
                    };
                    let (ps, s, pf, fs) = (
                        value(previous_spread),
                        value(spread),
                        value(price_to_fast),
                        value(fast_slope),
                    );
                    let expected = if ps <= 0.0 && s > 0.0 {
                        EMATrendSignal::BullishCross
                    } else if ps >= 0.0 && s < 0.0 {
                        EMATrendSignal::BearishCross
                    } else if pf > 0.0 && s > 0.0 && fs > 0.0 {
                        EMATrendSignal::StrongUptrend
                    } else if pf < 0.0 && s < 0.0 && fs < 0.0 {
                        EMATrendSignal::StrongDowntrend
                    } else {
                        EMATrendSignal::Neutral
                    };
                    let comparison =
                        CrossoverComparison { previous_spread, spread, price_to_fast, fast_slope };
                    assert_eq!(EMATrendSignal::classify(Some(comparison)), expected);
                }
            }
        }
    }
}

#[test]
fn ema_cross_from_touching_averages() {
    let comparison = CrossoverComparison {
        previous_spread: Sign::Zero,
        spread: Sign::Positive,
        price_to_fast: Sign::Negative,
        fast_slope: Sign::Negative,
    };
    assert_eq!(EMATrendSignal::classify(Some(comparison)), EMATrendSignal::BullishCross);
    let comparison = CrossoverComparison { spread: Sign::Negative, ..comparison };
    assert_eq!(EMATrendSignal::classify(Some(comparison)), EMATrendSignal::BearishCross);
    let comparison = CrossoverComparison { spread: Sign::Zero, ..comparison };
    assert_eq!(EMATrendSignal::classify(Some(comparison)), EMATrendSignal::Neutral);
}

#[test]
fn macd_cross_outranks_momentum() {
    assert_eq!(MACDSignal::classify(None), MACDSignal::Neutral);
    let rising_above_zero = MacdComparison {
        previous_spread: Sign::Positive,
        spread: Sign::Positive,
        level: Sign::Positive,
        slope: Sign::Positive,
    };
    assert_eq!(MACDSignal::classify(Some(rising_above_zero)), MACDSignal::BullishMomentum);
    let crossing = MacdComparison { previous_spread: Sign::Negative, ..rising_above_zero };
    assert_eq!(MACDSignal::classify(Some(crossing)), MACDSignal::BullishCross);
    let falling_below_zero = MacdComparison {
        previous_spread: Sign::Negative,
        spread: Sign::Negative,
        level: Sign::Negative,
        slope: Sign::Negative,
    };
    assert_eq!(MACDSignal::classify(Some(falling_below_zero)), MACDSignal::BearishMomentum);
    let crossing = MacdComparison { previous_spread: Sign::Zero, ..falling_below_zero };
    assert_eq!(MACDSignal::classify(Some(crossing)), MACDSignal::BearishCross);
    let fading = MacdComparison { slope: Sign::Negative, ..rising_above_zero };
    assert_eq!(MACDSignal::classify(Some(fading)), MACDSignal::Neutral);
    let flat = MacdComparison { level: Sign::Zero, ..rising_above_zero };
    assert_eq!(MACDSignal::classify(Some(flat)), MACDSignal::Neutral);
}

#[test]
fn rsi_zones_and_divergences() {
    for price_change in SIGNS {
        for rsi_change in [None, Some(Sign::Negative), Some(Sign::Zero), Some(Sign::Positive)] {
            assert_eq!(
                RSISignal::classify(RSIZone::Middle, price_change, rsi_change),
                RSISignal::Neutral
            );
            let oversold = RSISignal::classify(RSIZone::Oversold, price_change, rsi_change);
            if price_change == Sign::Negative && rsi_change == Some(Sign::Positive) {
                assert_eq!(oversold, RSISignal::BullishDivergence);
            } else {
                assert_eq!(oversold, RSISignal::Oversold);
            }
            let overbought = RSISignal::classify(RSIZone::Overbought, price_change, rsi_change);
            if price_change == Sign::Positive && rsi_change == Some(Sign::Negative) {
                assert_eq!(overbought, RSISignal::BearishDivergence);
            } else {
                assert_eq!(overbought, RSISignal::Overbought);
            }
        }
    }
}

#[test]
fn bollinger_precedence() {
    assert_eq!(BollingerSignal::classify(None), BollingerSignal::Neutral);
    let inside = BandPosition {
        squeezed: false,
        close_to_upper: Sign::Negative,
        close_to_lower: Sign::Positive,
        bandwidth_change: Some(Sign::Positive),
        near_middle: false,
        at_band: false,
    };
    assert_eq!(BollingerSignal::classify(Some(inside)), BollingerSignal::Neutral);
    let above = BandPosition { close_to_upper: Sign::Positive, ..inside };
    assert_eq!(BollingerSignal::classify(Some(above)), BollingerSignal::UpperBreakout);
    let below = BandPosition { close_to_lower: Sign::Negative, ..inside };
    assert_eq!(BollingerSignal::classify(Some(below)), BollingerSignal::LowerBreakout);
    // A squeeze hides a breakout.
    let squeezed = BandPosition { squeezed: true, ..above };
    assert_eq!(BollingerSignal::classify(Some(squeezed)), BollingerSignal::Squeeze);
    // On the band is not beyond it.
    let on_upper = BandPosition { close_to_upper: Sign::Zero, at_band: true, ..inside };
    assert_eq!(BollingerSignal::classify(Some(on_upper)), BollingerSignal::WalkingBands);
    let reverting =
        BandPosition { bandwidth_change: Some(Sign::Negative), near_middle: true, ..inside };
    assert_eq!(BollingerSignal::classify(Some(reverting)), BollingerSignal::MeanReversion);
    // Mean reversion comes before walking the bands.
    let both = BandPosition { at_band: true, ..reverting };
    assert_eq!(BollingerSignal::classify(Some(both)), BollingerSignal::MeanReversion);
    let widening_near_middle = BandPosition { near_middle: true, ..inside };
    assert_eq!(BollingerSignal::classify(Some(widening_near_middle)), BollingerSignal::Neutral);
    // Without an earlier bandwidth only squeeze and breakout are read.
    let first = BandPosition { bandwidth_change: None, near_middle: true, at_band: true, ..inside };
    assert_eq!(BollingerSignal::classify(Some(first)), BollingerSignal::Neutral);
}

#[test]
fn obv_against_price() {
    for obv_change in SIGNS {
        assert_eq!(OBVSignal::classify(None, obv_change), OBVSignal::Neutral);
        assert_eq!(OBVSignal::classify(Some(Sign::Zero), obv_change), OBVSignal::Neutral);
    }
    assert_eq!(
        OBVSignal::classify(Some(Sign::Negative), Sign::Positive),
        OBVSignal::BullishDivergence
    );
    assert_eq!(
        OBVSignal::classify(Some(Sign::Positive), Sign::Negative),
        OBVSignal::BearishDivergence
    );
    assert_eq!(OBVSignal::classify(Some(Sign::Positive), Sign::Positive), OBVSignal::Confirmation);
    assert_eq!(OBVSignal::classify(Some(Sign::Negative), Sign::Negative), OBVSignal::Confirmation);
    assert_eq!(OBVSignal::classify(Some(Sign::Positive), Sign::Zero), OBVSignal::Neutral);
    assert_eq!(OBVSignal::classify(Some(Sign::Negative), Sign::Zero), OBVSignal::Neutral);
    assert_eq!(OBVSignal::volume_direction(Sign::Positive), 1);
    assert_eq!(OBVSignal::volume_direction(Sign::Negative), -1);
    assert_eq!(OBVSignal::volume_direction(Sign::Zero), 0);
}

#[test]
fn open_interest_against_price() {
    assert_eq!(OpenInterestSignal::classify(None), OpenInterestSignal::Neutral);
    let reading = |change, price_change| {
        OpenInterestSignal::classify(Some(OpenInterestMove { change, price_change }))
    };
    assert_eq!(
        reading(OpenInterestChange::Expanding, Sign::Positive),
        OpenInterestSignal::BullishExpansion
    );
    assert_eq!(
        reading(OpenInterestChange::Expanding, Sign::Negative),
        OpenInterestSignal::BearishExpansion
    );
    assert_eq!(reading(OpenInterestChange::Expanding, Sign::Zero), OpenInterestSignal::Neutral);
    assert_eq!(
        reading(OpenInterestChange::Contracting, Sign::Negative),
        OpenInterestSignal::LongSqueeze
    );
    assert_eq!(
        reading(OpenInterestChange::Contracting, Sign::Positive),
        OpenInterestSignal::ShortSqueeze
    );
    assert_eq!(reading(OpenInterestChange::Contracting, Sign::Zero), OpenInterestSignal::Neutral);
    for price_change in SIGNS {
        assert_eq!(reading(OpenInterestChange::Steady, price_change), OpenInterestSignal::Neutral);
    }
}

#[test]
fn volume_profile_near_and_away_from_poc() {
    for level in [VolumeLevel::High, VolumeLevel::Low, VolumeLevel::Average] {
        assert_eq!(
            VolumeProfileSignal::classify(true, Sign::Positive, level),
            VolumeProfileSignal::POCSupport
        );
        assert_eq!(
            VolumeProfileSignal::classify(true, Sign::Zero, level),
            VolumeProfileSignal::POCResistance
        );
        assert_eq!(
            VolumeProfileSignal::classify(true, Sign::Negative, level),
            VolumeProfileSignal::POCResistance
        );
    }
    for price_to_poc in SIGNS {
        assert_eq!(
            VolumeProfileSignal::classify(false, price_to_poc, VolumeLevel::High),
            VolumeProfileSignal::NearHVN
        );
        assert_eq!(
            VolumeProfileSignal::classify(false, price_to_poc, VolumeLevel::Low),
            VolumeProfileSignal::NearLVN
        );
        assert_eq!(
            VolumeProfileSignal::classify(false, price_to_poc, VolumeLevel::Average),
            VolumeProfileSignal::Neutral
        );
    }
}

#[test]
fn supertrend_band_flips_when_crossed() {
    // A fresh tracker starts from the lower band.
    assert_eq!(ActiveBand::next(None, Sign::Negative, Sign::Positive), ActiveBand::Lower);
    assert_eq!(ActiveBand::next(None, Sign::Negative, Sign::Zero), ActiveBand::Lower);
    assert_eq!(ActiveBand::next(None, Sign::Negative, Sign::Negative), ActiveBand::Upper);
    let lower = Some(ActiveBand::Lower);
    assert_eq!(ActiveBand::next(lower, Sign::Negative, Sign::Positive), ActiveBand::Lower);
    assert_eq!(ActiveBand::next(lower, Sign::Positive, Sign::Positive), ActiveBand::Lower);
    assert_eq!(ActiveBand::next(lower, Sign::Negative, Sign::Negative), ActiveBand::Upper);
    let upper = Some(ActiveBand::Upper);
    assert_eq!(ActiveBand::next(upper, Sign::Negative, Sign::Positive), ActiveBand::Upper);
    assert_eq!(ActiveBand::next(upper, Sign::Zero, Sign::Positive), ActiveBand::Upper);
    assert_eq!(ActiveBand::next(upper, Sign::Negative, Sign::Negative), ActiveBand::Upper);
    assert_eq!(ActiveBand::next(upper, Sign::Positive, Sign::Positive), ActiveBand::Lower);
}

#[test]
fn supertrend_rising_closes_turn_bullish_and_stay() {
    // Closes that keep above the trailing band: bearish at first, one flip
    // when the close rises above the band, bullish from then on.
    let distances = [-0.5, 0.0, 0.4, 1.0, 1.5, 2.0, 2.5];
    let mut previous = None;
    let mut reported = Vec::new();
    for distance in distances {
        let current = SuperTrendSignal::side(sign(distance));
        reported.push(SuperTrendSignal::transition(previous, current));
        previous = Some(current);
    }
    assert_eq!(
        reported,
        vec![
            SuperTrendSignal::Bearish,
            SuperTrendSignal::Bearish,
            SuperTrendSignal::BullishFlip,
            SuperTrendSignal::Bullish,
            SuperTrendSignal::Bullish,
            SuperTrendSignal::Bullish,
            SuperTrendSignal::Bullish,
        ]
    );
    let flip = reported.iter().position(|s| *s == SuperTrendSignal::BullishFlip).unwrap();
    assert!(reported[flip..]
        .iter()
        .all(|s| matches!(s, SuperTrendSignal::Bullish | SuperTrendSignal::BullishFlip)));
}
