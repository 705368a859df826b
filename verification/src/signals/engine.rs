//! The evaluation of one window of candles: the readings of the trackers
//! are folded candle by candle, and the readings that stand after the last
//! candle are scored and turned into a recommendation.

use vstd::prelude::*;
use crate::engine::aggregator::{
    aggregate_spec, lemma_aggregate_well_formed, IndicatorSignals, SignalAggregator,
};
use crate::engine::signal::TradingSignalView;
use crate::indicators::momentum::macd::MACDSignal;
use crate::indicators::momentum::rsi::RSISignal;
use crate::indicators::perp::funding_rate::FundingSignal;
use crate::indicators::perp::open_interest::OpenInterestSignal;
use crate::indicators::trend::ema::EMATrendSignal;
use crate::indicators::trend::supertrend::SuperTrendSignal;
use crate::indicators::volatility::atr::VolatilityRegime;
use crate::indicators::volatility::bollinger::BollingerSignal;
use crate::indicators::volume::obv::OBVSignal;
use crate::indicators::volume::volume_profile::VolumeProfileSignal;
use crate::models::signal::{
    reason_views, SignalDecision, SignalDecisionView, SignalDirection, SignalReason,
    SignalReasonView,
};
use crate::signals::decision::StopLossTakeProfit;

verus! {

/// The least number of candles an evaluation needs.
pub const MIN_CANDLES: usize = 50;

/// The weight of a category reason, in hundredths.
pub const CATEGORY_REASON_WEIGHT_PCT: u32 = 100;

/// The weight of the trailing risk reason, in hundredths.
pub const RISK_REASON_WEIGHT_PCT: u32 = 50;

/// What the ten trackers report after one candle. A tracker that was not
/// fed on this candle, or has nothing to say yet, reports `None`: the RSI
/// before its window fills, open interest and funding on a candle that
/// carries none.
#[derive(Debug, Clone, Copy)]
pub struct CandleReading {
    pub ema_signal: EMATrendSignal,
    pub supertrend_signal: SuperTrendSignal,
    pub rsi_signal: Option<RSISignal>,
    pub macd_signal: MACDSignal,
    pub bollinger_signal: BollingerSignal,
    pub volatility_regime: VolatilityRegime,
    pub obv_signal: OBVSignal,
    pub volume_profile_signal: VolumeProfileSignal,
    pub oi_signal: Option<OpenInterestSignal>,
    pub funding_signal: Option<FundingSignal>,
}

/// The readings that stand before any candle is seen.
pub open spec fn initial_signals() -> IndicatorSignals {
    IndicatorSignals {
        ema_signal: EMATrendSignal::Neutral,
        supertrend_signal: SuperTrendSignal::Bearish,
        rsi_signal: RSISignal::Neutral,
        macd_signal: MACDSignal::Neutral,
        bollinger_signal: BollingerSignal::Neutral,
        volatility_regime: VolatilityRegime::Normal,
        obv_signal: OBVSignal::Neutral,
        volume_profile_signal: VolumeProfileSignal::Neutral,
        oi_signal: OpenInterestSignal::Neutral,
        funding_signal: FundingSignal::Neutral,
    }
}

/// The readings that stand after one more candle: each tracker that
/// reports replaces its reading, each one that does not keeps it.
pub open spec fn observe_spec(current: IndicatorSignals, reading: CandleReading)
    -> IndicatorSignals {
    IndicatorSignals {
        ema_signal: reading.ema_signal,
        supertrend_signal: reading.supertrend_signal,
        rsi_signal: match reading.rsi_signal {
            Some(signal) => signal,
            None => current.rsi_signal,
        },
        macd_signal: reading.macd_signal,
        bollinger_signal: reading.bollinger_signal,
        volatility_regime: reading.volatility_regime,
        obv_signal: reading.obv_signal,
        volume_profile_signal: reading.volume_profile_signal,
        oi_signal: match reading.oi_signal {
            Some(signal) => signal,
            None => current.oi_signal,
        },
        funding_signal: match reading.funding_signal {
            Some(signal) => signal,
            None => current.funding_signal,
        },
    }
}

/// The readings that stand after a sequence of candles, oldest first.
pub open spec fn latest_signals(readings: Seq<CandleReading>) -> IndicatorSignals
    decreases readings.len(),
{
    if readings.len() == 0 {
        initial_signals()
    } else {
        observe_spec(latest_signals(readings.drop_last()), readings.last())
    }
}

/// The weighted trail of an evaluation: every category reason at full
/// weight, in order, then the risk reason at half weight.
pub open spec fn weighted_reasons(signal: TradingSignalView) -> Seq<SignalReasonView> {
    Seq::new(
        signal.reasons.len(),
        |i: int|
            SignalReasonView {
                description: signal.reasons[i],
                weight_pct: CATEGORY_REASON_WEIGHT_PCT as nat,
            },
    ).push(
        SignalReasonView {
            description: signal.risk_level.reason(),
            weight_pct: RISK_REASON_WEIGHT_PCT as nat,
        },
    )
}

/// The recommendation that a trading signal yields for a symbol.
pub open spec fn decision_of(signal: TradingSignalView, symbol: Seq<char>, atr_positive: bool)
    -> SignalDecisionView {
    let direction = SignalDirection::of_position(signal.position);
    let multiples = StopLossTakeProfit::multiples_of(direction, atr_positive);
    SignalDecisionView {
        direction,
        confidence: signal.confidence,
        stop_loss_atr_tenths: multiples.0,
        take_profit_atr_tenths: multiples.1,
        reasons: weighted_reasons(signal),
        symbol,
    }
}

/// What an evaluation returns: nothing for a window shorter than
/// `MIN_CANDLES`, else the recommendation for the readings that stand after
/// the last candle.
pub open spec fn evaluate_spec(
    readings: Seq<CandleReading>,
    symbol: Seq<char>,
    atr_positive: bool,
) -> Option<SignalDecisionView> {
    if readings.len() < MIN_CANDLES {
        None
    } else {
        Some(decision_of(aggregate_spec(latest_signals(readings)), symbol, atr_positive))
    }
}

/// The view of what an evaluation returned.
pub open spec fn outcome_view(outcome: Option<SignalDecision>) -> Option<SignalDecisionView> {
    match outcome {
        Some(decision) => Some(decision@),
        None => None,
    }
}

/// The evaluation engine. It holds no state: every call starts afresh.
pub struct SignalEngine;

impl SignalEngine {
    /// The readings before any candle: every indicator neutral, SuperTrend
    /// bearish, volatility normal.
    pub fn initial() -> (signals: IndicatorSignals)
        ensures
            signals == initial_signals(),
    {
        IndicatorSignals {
            ema_signal: EMATrendSignal::Neutral,
            supertrend_signal: SuperTrendSignal::Bearish,
            rsi_signal: RSISignal::Neutral,
            macd_signal: MACDSignal::Neutral,
            bollinger_signal: BollingerSignal::Neutral,
            volatility_regime: VolatilityRegime::Normal,
            obv_signal: OBVSignal::Neutral,
            volume_profile_signal: VolumeProfileSignal::Neutral,
            oi_signal: OpenInterestSignal::Neutral,
            funding_signal: FundingSignal::Neutral,
        }
    }

    /// One step of the fold: the readings that stand after `reading`.
    pub fn observe(current: IndicatorSignals, reading: &CandleReading) -> (next: IndicatorSignals)
        ensures
            next == observe_spec(current, *reading),
    {
        IndicatorSignals {
            ema_signal: reading.ema_signal,
            supertrend_signal: reading.supertrend_signal,
            rsi_signal: match reading.rsi_signal {
                Some(signal) => signal,
                None => current.rsi_signal,
            },
            macd_signal: reading.macd_signal,
            bollinger_signal: reading.bollinger_signal,
            volatility_regime: reading.volatility_regime,
            obv_signal: reading.obv_signal,
            volume_profile_signal: reading.volume_profile_signal,
            oi_signal: match reading.oi_signal {
                Some(signal) => signal,
                None => current.oi_signal,
            },
            funding_signal: match reading.funding_signal {
                Some(signal) => signal,
                None => current.funding_signal,
            },
        }
    }

    /// Folds the readings of every candle, in order, and returns those
    /// that stand after the last one.
    pub fn fold(readings: &[CandleReading]) -> (signals: IndicatorSignals)
        ensures
            signals == latest_signals(readings@),
    {
        let mut current = Self::initial();
        let mut i: usize = 0;
        while i < readings.len()
            invariant
                i <= readings.len(),
                current == latest_signals(readings@.take(i as int)),
            decreases readings.len() - i,
        {
            proof {
                let next = readings@.take(i + 1);
                assert(next.drop_last() =~= readings@.take(i as int));
                assert(next.last() == readings@[i as int]);
            }
            current = Self::observe(current, &readings[i]);
            i = i + 1;
        }
        assert(readings@.take(i as int) =~= readings@);
        current
    }

    /// Evaluates one window of candles for `symbol`. `atr_positive` says
    /// whether the average true range after the last candle is above zero.
    /// A window shorter than `MIN_CANDLES` gives no recommendation; that
    /// is the only case without one.
    pub fn evaluate(readings: &[CandleReading], symbol: &str, atr_positive: bool) -> (outcome:
        Option<SignalDecision>)
        ensures
            outcome_view(outcome) == evaluate_spec(readings@, symbol@, atr_positive),
            readings@.len() < MIN_CANDLES <==> outcome is None,
            outcome matches Some(decision) ==> decision.confidence.wf(),
    {
        if readings.len() < MIN_CANDLES {
            return None;
        }
        let indicator_signals = Self::fold(readings);
        let trading_signal = SignalAggregator::new().aggregate(indicator_signals);
        let direction = SignalDirection::from_position(trading_signal.position);
        let (stop_loss_atr_tenths, take_profit_atr_tenths) = StopLossTakeProfit::atr_multiples(
            direction,
            atr_positive,
        );

        let mut reasons: Vec<SignalReason> = Vec::new();
        let mut i: usize = 0;
        while i < trading_signal.reasons.len()
            invariant
                i <= trading_signal.reasons.len(),
                reasons@.len() == i,
                forall|j: int|
                    0 <= j < i ==> #[trigger] reasons@[j]@ == (SignalReasonView {
                        description: trading_signal.reasons@[j]@,
                        weight_pct: CATEGORY_REASON_WEIGHT_PCT as nat,
                    }),
            decreases trading_signal.reasons.len() - i,
        {
            reasons.push(
                SignalReason {
                    description: trading_signal.reasons[i].clone(),
                    weight_pct: CATEGORY_REASON_WEIGHT_PCT,
                },
            );
            i = i + 1;
        }
        reasons.push(
            SignalReason {
                description: trading_signal.risk_level.describe(),
                weight_pct: RISK_REASON_WEIGHT_PCT,
            },
        );
        assert(reason_views(reasons@) =~= weighted_reasons(trading_signal@));

        Some(
            SignalDecision {
                direction,
                confidence: trading_signal.confidence,
                stop_loss_atr_tenths,
                take_profit_atr_tenths,
                reasons,
                symbol: String::from_str(symbol),
            },
        )
    }
}

/// A window shorter than `MIN_CANDLES` gives no recommendation, and every
/// other window gives one.
pub proof fn lemma_short_window_gives_nothing(
    readings: Seq<CandleReading>,
    symbol: Seq<char>,
    atr_positive: bool,
)
    ensures
        readings.len() < 50 <==> evaluate_spec(readings, symbol, atr_positive) is None,
{
}

/// Two evaluations of the same window, for the same symbol and with the
/// same sign of the average true range, return the same.
pub proof fn lemma_evaluation_deterministic(
    readings: Seq<CandleReading>,
    symbol: Seq<char>,
    atr_positive: bool,
    first: Option<SignalDecision>,
    second: Option<SignalDecision>,
)
    requires
        outcome_view(first) == evaluate_spec(readings, symbol, atr_positive),
        outcome_view(second) == evaluate_spec(readings, symbol, atr_positive),
    ensures
        outcome_view(first) == outcome_view(second),
{
}

/// Every recommendation carries a confidence between zero and one, the
/// direction of its bias, at least the risk reason, and a take-profit that
/// stands to the stop-loss as 20 to 12.
pub proof fn lemma_decision_well_formed(
    readings: Seq<CandleReading>,
    symbol: Seq<char>,
    atr_positive: bool,
)
    requires
        readings.len() >= 50,
    ensures
        evaluate_spec(readings, symbol, atr_positive) matches Some(decision) && {
            &&& decision.confidence.wf()
            &&& decision.reasons.len() >= 1
            &&& decision.reasons.last().weight_pct == 50
            &&& decision.stop_loss_atr_tenths * 20 == decision.take_profit_atr_tenths * 12
            &&& decision.direction == SignalDirection::Neutral ==> decision.stop_loss_atr_tenths
                == 0
        },
{
    lemma_aggregate_well_formed(latest_signals(readings));
}

/// Only what stands after the last candle counts: a reading that a later
/// candle replaces leaves no trace. Windows that end in the same candle,
/// in which every tracker reports, are evaluated alike.
pub proof fn lemma_only_final_readings_count(a: Seq<CandleReading>, b: Seq<CandleReading>)
    requires
        a.len() > 0,
        b.len() > 0,
        a.last() == b.last(),
        a.last().rsi_signal is Some,
        a.last().oi_signal is Some,
        a.last().funding_signal is Some,
    ensures
        latest_signals(a) == latest_signals(b),
{
}

/// A tracker that reports on some candles only is read at the last candle
/// on which it reported: where the RSI, open interest or funding reported at
/// candle `i` and on no later one, the reading of candle `i` stands.
pub proof fn lemma_last_report_stands(readings: Seq<CandleReading>, i: int)
    requires
        0 <= i < readings.len(),
    ensures
        readings[i].rsi_signal is Some && (forall|j: int|
            i < j < readings.len() ==> (#[trigger] readings[j]).rsi_signal is None)
            ==> Some(latest_signals(readings).rsi_signal) == readings[i].rsi_signal,
        readings[i].oi_signal is Some && (forall|j: int|
            i < j < readings.len() ==> (#[trigger] readings[j]).oi_signal is None) ==> Some(
            latest_signals(readings).oi_signal,
        ) == readings[i].oi_signal,
        readings[i].funding_signal is Some && (forall|j: int|
            i < j < readings.len() ==> (#[trigger] readings[j]).funding_signal is None)
            ==> Some(latest_signals(readings).funding_signal) == readings[i].funding_signal,
    decreases readings.len(),
{
    if i < readings.len() - 1 {
        let earlier = readings.drop_last();
        lemma_last_report_stands(earlier, i);
        assert(earlier[i] == readings[i]);
        assert(forall|j: int| i < j < earlier.len() ==> earlier[j] == readings[j]);
    }
}

/// A tracker that never reported reads neutral.
pub proof fn lemma_silent_tracker_is_neutral(readings: Seq<CandleReading>)
    ensures
        (forall|j: int| 0 <= j < readings.len() ==> (#[trigger] readings[j]).rsi_signal is None)
            ==> latest_signals(readings).rsi_signal == RSISignal::Neutral,
        (forall|j: int| 0 <= j < readings.len() ==> (#[trigger] readings[j]).oi_signal is None)
            ==> latest_signals(readings).oi_signal == OpenInterestSignal::Neutral,
        (forall|j: int|
            0 <= j < readings.len() ==> (#[trigger] readings[j]).funding_signal is None)
            ==> latest_signals(readings).funding_signal == FundingSignal::Neutral,
    decreases readings.len(),
{
    if readings.len() > 0 {
        let earlier = readings.drop_last();
        lemma_silent_tracker_is_neutral(earlier);
        assert(forall|j: int| 0 <= j < earlier.len() ==> earlier[j] == readings[j]);
    }
}

/// The fold can be carried on from where it stood: the readings after one
/// more candle are those after the earlier candles, with the new candle
/// observed. A state kept between calls and a replay from the start agree.
pub proof fn lemma_fold_is_incremental(readings: Seq<CandleReading>, reading: CandleReading)
    ensures
        latest_signals(readings.push(reading)) == observe_spec(latest_signals(readings), reading),
{
    assert(readings.push(reading).drop_last() =~= readings);
}

} // verus!
