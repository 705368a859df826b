//! Fuses the ten categorical readings into five bounded category scores,
//! a bias, a confidence and a risk level, with an ordered trail of reasons.

use vstd::prelude::*;
use crate::engine::signal::{
    bias_of_score, position_of_bias, texts, Confidence, MarketBias, RiskLevel, ScoreBreakdown,
    TradingSignal, TradingSignalView,
};
use crate::indicators::momentum::macd::MACDSignal;
use crate::indicators::momentum::rsi::RSISignal;
use crate::indicators::perp::funding_rate::FundingSignal;
use crate::indicators::perp::open_interest::OpenInterestSignal;
use crate::indicators::trend::ema::EMATrendSignal;
use crate::indicators::trend::supertrend::SuperTrendSignal;
use crate::indicators::volatility::atr::VolatilityRegime;
use crate::indicators::volatility::bollinger::BollingerSignal;
use crate::indicators::volume::obv::OBVSignal;
use crate::indicators::volume::volume_profile::VolumeProfileSignal;

verus! {

/// The reading of each of the ten indicators at one moment.
#[derive(Debug, Clone, Copy)]
pub struct IndicatorSignals {
    pub ema_signal: EMATrendSignal,
    pub supertrend_signal: SuperTrendSignal,
    pub rsi_signal: RSISignal,
    pub macd_signal: MACDSignal,
    pub bollinger_signal: BollingerSignal,
    pub volatility_regime: VolatilityRegime,
    pub obv_signal: OBVSignal,
    pub volume_profile_signal: VolumeProfileSignal,
    pub oi_signal: OpenInterestSignal,
    pub funding_signal: FundingSignal,
}

/// The denominator of every confidence: the total magnitude the five
/// categories can reach, times ten for the alignment factor.
pub const CONFIDENCE_DENOMINATOR: u32 = 120;

/// `score` held within `-bound ..= bound`.
pub open spec fn clamp(score: int, bound: int) -> int {
    if score < -bound {
        -bound
    } else if score > bound {
        bound
    } else {
        score
    }
}

/// Trend: the EMA pair and SuperTrend, within [-3, 3].
pub open spec fn trend_score(signals: IndicatorSignals) -> int {
    clamp(signals.ema_signal.delta() + signals.supertrend_signal.delta(), 3)
}

/// The reasons of the trend category: those of the EMA pair, then SuperTrend.
pub open spec fn trend_reasons(signals: IndicatorSignals) -> Seq<Seq<char>> {
    signals.ema_signal.reasons() + signals.supertrend_signal.reasons()
}

/// Momentum: RSI and MACD, within [-3, 3].
pub open spec fn momentum_score(signals: IndicatorSignals) -> int {
    clamp(signals.rsi_signal.delta() + signals.macd_signal.delta(), 3)
}

/// The reasons of the momentum category: those of RSI, then MACD.
pub open spec fn momentum_reasons(signals: IndicatorSignals) -> Seq<Seq<char>> {
    signals.rsi_signal.reasons() + signals.macd_signal.reasons()
}

/// Volatility: the Bollinger breakout alone, within [-2, 2]; the regime
/// only leaves a reason.
pub open spec fn volatility_score(signals: IndicatorSignals) -> int {
    clamp(signals.bollinger_signal.delta(), 2)
}

/// The reasons of the volatility category: those of the Bollinger bands,
/// then the volatility regime.
pub open spec fn volatility_reasons(signals: IndicatorSignals) -> Seq<Seq<char>> {
    signals.bollinger_signal.reasons() + signals.volatility_regime.reasons()
}

/// Volume: on-balance volume and the volume profile, within [-2, 2].
pub open spec fn volume_score(signals: IndicatorSignals) -> int {
    clamp(signals.obv_signal.delta() + signals.volume_profile_signal.delta(), 2)
}

/// The reasons of the volume category: those of on-balance volume, then the volume profile.
pub open spec fn volume_reasons(signals: IndicatorSignals) -> Seq<Seq<char>> {
    signals.obv_signal.reasons() + signals.volume_profile_signal.reasons()
}

/// Perp: open interest and funding, within [-2, 2].
pub open spec fn perp_score(signals: IndicatorSignals) -> int {
    clamp(signals.oi_signal.delta() + signals.funding_signal.delta(), 2)
}

/// The reasons of the perp category: those of open interest, then funding.
pub open spec fn perp_reasons(signals: IndicatorSignals) -> Seq<Seq<char>> {
    signals.oi_signal.reasons() + signals.funding_signal.reasons()
}

/// The sum of the five category scores.
pub open spec fn total_score(signals: IndicatorSignals) -> int {
    trend_score(signals) + momentum_score(signals) + volatility_score(signals) + volume_score(
        signals,
    ) + perp_score(signals)
}

/// The reasons of the five categories in the order trend, momentum,
/// volatility, volume, perp.
pub open spec fn all_reasons(signals: IndicatorSignals) -> Seq<Seq<char>> {
    trend_reasons(signals) + momentum_reasons(signals) + volatility_reasons(signals)
        + volume_reasons(signals) + perp_reasons(signals)
}

/// The part of a score that is above zero.
pub open spec fn positive_part(score: int) -> int {
    if score > 0 {
        score
    } else {
        0
    }
}

/// The size of the part of a score that is below zero.
pub open spec fn negative_part(score: int) -> int {
    if score < 0 {
        -score
    } else {
        0
    }
}

/// The larger of the summed positive scores and the summed sizes of the
/// negative scores.
pub open spec fn dominant_magnitude(
    trend: int,
    momentum: int,
    volatility: int,
    volume: int,
    perp: int,
) -> int {
    let positive = positive_part(trend) + positive_part(momentum) + positive_part(volatility)
        + positive_part(volume) + positive_part(perp);
    let negative = negative_part(trend) + negative_part(momentum) + negative_part(volatility)
        + negative_part(volume) + negative_part(perp);
    if positive >= negative {
        positive
    } else {
        negative
    }
}

/// Trend and momentum point the same way.
pub open spec fn aligned(trend: int, momentum: int) -> bool {
    (trend > 0 && momentum > 0) || (trend < 0 && momentum < 0)
}

/// The confidence in hundred-and-twentieths. The dominant magnitude over
/// the total possible magnitude of 12 is the base; it is taken times 1.2
/// where trend and momentum are aligned and times 0.8 where they are not,
/// and held at one.
pub open spec fn confidence_numerator(
    trend: int,
    momentum: int,
    volatility: int,
    volume: int,
    perp: int,
) -> int {
    let magnitude = dominant_magnitude(trend, momentum, volatility, volume, perp);
    let scaled = if aligned(trend, momentum) {
        12 * magnitude
    } else {
        8 * magnitude
    };
    if scaled > 120 {
        120
    } else {
        scaled
    }
}

/// The number of risk factors: 2 for high volatility, 1 for extreme
/// funding, 1 for a total score of size under 2, less 1 for an RSI
/// divergence, and never below zero.
pub open spec fn risk_factors(signals: IndicatorSignals, total: int) -> int {
    let raised = (if signals.volatility_regime == VolatilityRegime::High {
        2int
    } else {
        0int
    }) + (if signals.funding_signal.is_extreme_spec() {
        1int
    } else {
        0int
    }) + (if -2 < total < 2 {
        1int
    } else {
        0int
    });
    if signals.rsi_signal.is_divergence_spec() && raised > 0 {
        raised - 1
    } else {
        raised
    }
}

/// The risk level: High from three factors, Medium from one, else Low.
pub open spec fn risk_of(signals: IndicatorSignals, total: int) -> RiskLevel {
    let factors = risk_factors(signals, total);
    if factors >= 3 {
        RiskLevel::High
    } else if factors >= 1 {
        RiskLevel::Medium
    } else {
        RiskLevel::Low
    }
}

/// The score breakdown of a set of readings.
pub open spec fn breakdown_of(signals: IndicatorSignals) -> ScoreBreakdown {
    ScoreBreakdown {
        trend_score: trend_score(signals) as i32,
        momentum_score: momentum_score(signals) as i32,
        volatility_score: volatility_score(signals) as i32,
        volume_score: volume_score(signals) as i32,
        perp_score: perp_score(signals) as i32,
        total_score: total_score(signals) as i32,
    }
}

/// The confidence of a set of readings.
pub open spec fn confidence_of(signals: IndicatorSignals) -> Confidence {
    Confidence {
        numerator: confidence_numerator(
            trend_score(signals),
            momentum_score(signals),
            volatility_score(signals),
            volume_score(signals),
            perp_score(signals),
        ) as u32,
        denominator: CONFIDENCE_DENOMINATOR,
    }
}

/// The trading signal that a set of readings yields.
pub open spec fn aggregate_spec(signals: IndicatorSignals) -> TradingSignalView {
    let bias = bias_of_score(total_score(signals));
    TradingSignalView {
        position: position_of_bias(bias),
        confidence: confidence_of(signals),
        bias,
        score_breakdown: breakdown_of(signals),
        risk_level: risk_of(signals, total_score(signals)),
        reasons: all_reasons(signals),
    }
}

/// Appends one reason to the trail.
fn push_reason(reasons: &mut Vec<String>, text: &str)
    ensures
        texts(final(reasons)@) == texts(old(reasons)@) + seq![text@],
{
    reasons.push(String::from_str(text));
    assert(texts(reasons@) =~= texts(old(reasons)@) + seq![text@]);
}

/// Holds a score within `-bound ..= bound`.
fn clamp_score(score: i32, bound: i32) -> (clamped: i32)
    requires
        0 <= bound,
    ensures
        clamped == clamp(score as int, bound as int),
{
    if score < -bound {
        -bound
    } else if score > bound {
        bound
    } else {
        score
    }
}

/// The part of a score that is above zero.
fn positive_of(score: i32) -> (part: i64)
    ensures
        part == positive_part(score as int),
{
    if score > 0 {
        score as i64
    } else {
        0
    }
}

/// The size of the part of a score that is below zero.
fn negative_of(score: i32) -> (part: i64)
    ensures
        part == negative_part(score as int),
{
    if score < 0 {
        -(score as i64)
    } else {
        0
    }
}

/// The scoring policy. It holds no state: one value serves every call.
pub struct SignalAggregator;

impl SignalAggregator {
    pub fn new() -> (aggregator: Self) {
        SignalAggregator
    }

    /// Scores the five categories in turn, sums them, and derives bias,
    /// position, confidence and risk from the scores.
    pub fn aggregate(&self, signals: IndicatorSignals) -> (signal: TradingSignal)
        ensures
            signal@ == aggregate_spec(signals),
            signal@.wf(),
    {
        let mut reasons: Vec<String> = Vec::new();
        assert(texts(reasons@) =~= Seq::<Seq<char>>::empty());

        let trend_score = self.score_trend(&signals, &mut reasons);
        let momentum_score = self.score_momentum(&signals, &mut reasons);
        let volatility_score = self.score_volatility(&signals, &mut reasons);
        let volume_score = self.score_volume(&signals, &mut reasons);
        let perp_score = self.score_perp(&signals, &mut reasons);
        assert(texts(reasons@) =~= all_reasons(signals));

        let total_score = trend_score + momentum_score + volatility_score + volume_score
            + perp_score;
        let bias = MarketBias::from_score(total_score);
        let position = bias.to_position();
        let confidence = self.calculate_confidence(
            trend_score,
            momentum_score,
            volatility_score,
            volume_score,
            perp_score,
        );
        let risk_level = self.assess_risk(&signals, total_score);

        TradingSignal {
            position,
            confidence,
            bias,
            score_breakdown: ScoreBreakdown {
                trend_score,
                momentum_score,
                volatility_score,
                volume_score,
                perp_score,
                total_score,
            },
            risk_level,
            reasons,
        }
    }

    /// The trend score, within [-3, 3]; the reasons of the EMA pair and of
    /// SuperTrend are appended to the trail in that order.
    pub fn score_trend(&self, signals: &IndicatorSignals, reasons: &mut Vec<String>) -> (score:
        i32)
        ensures
            score == trend_score(*signals),
            -3 <= score <= 3,
            texts(final(reasons)@) == texts(old(reasons)@) + trend_reasons(*signals),
    {
        let mut score: i32 = 0;
        match signals.ema_signal {
            EMATrendSignal::BullishCross => {
                score += 2;
                push_reason(reasons, "Golden Cross EMA20/50");
            },
            EMATrendSignal::BearishCross => {
                score -= 2;
                push_reason(reasons, "Death Cross EMA20/50");
            },
            EMATrendSignal::StrongUptrend => {
                score += 1;
                push_reason(reasons, "Strong uptrend structure");
            },
            EMATrendSignal::StrongDowntrend => {
                score -= 1;
                push_reason(reasons, "Strong downtrend structure");
            },
            EMATrendSignal::Neutral => {},
        }
        assert(texts(reasons@) =~= texts(old(reasons)@) + signals.ema_signal.reasons());

        match signals.supertrend_signal {
            SuperTrendSignal::BullishFlip => {
                score += 2;
                push_reason(reasons, "SuperTrend flip bullish");
            },
            SuperTrendSignal::BearishFlip => {
                score -= 2;
                push_reason(reasons, "SuperTrend flip bearish");
            },
            SuperTrendSignal::Bullish => {
                score += 1;
            },
            SuperTrendSignal::Bearish => {
                score -= 1;
            },
        }
        assert(texts(reasons@) =~= texts(old(reasons)@) + trend_reasons(*signals));

        clamp_score(score, 3)
    }

    /// The momentum score, within [-3, 3]; the reasons of RSI and of MACD
    /// are appended to the trail in that order.
    pub fn score_momentum(&self, signals: &IndicatorSignals, reasons: &mut Vec<String>) -> (score:
        i32)
        ensures
            score == momentum_score(*signals),
            -3 <= score <= 3,
            texts(final(reasons)@) == texts(old(reasons)@) + momentum_reasons(*signals),
    {
        let mut score: i32 = 0;
        match signals.rsi_signal {
            RSISignal::BullishDivergence => {
                score += 2;
                push_reason(reasons, "RSI bullish divergence");
            },
            RSISignal::BearishDivergence => {
                score -= 2;
                push_reason(reasons, "RSI bearish divergence");
            },
            RSISignal::Oversold => {
                score += 1;
                push_reason(reasons, "RSI oversold");
            },
            RSISignal::Overbought => {
                score -= 1;
                push_reason(reasons, "RSI overbought");
            },
            RSISignal::Neutral => {},
        }
        assert(texts(reasons@) =~= texts(old(reasons)@) + signals.rsi_signal.reasons());

        match signals.macd_signal {
            MACDSignal::BullishCross => {
                score += 2;
                push_reason(reasons, "MACD bullish cross");
            },
            MACDSignal::BearishCross => {
                score -= 2;
                push_reason(reasons, "MACD bearish cross");
            },
            MACDSignal::BullishMomentum => {
                score += 1;
            },
            MACDSignal::BearishMomentum => {
                score -= 1;
            },
            MACDSignal::Neutral => {},
        }
        assert(texts(reasons@) =~= texts(old(reasons)@) + momentum_reasons(*signals));

        clamp_score(score, 3)
    }

    /// The volatility score, within [-2, 2]; the reasons of the Bollinger
    /// bands and of the volatility regime are appended to the trail in that
    /// order.
    pub fn score_volatility(
        &self,
        signals: &IndicatorSignals,
        reasons: &mut Vec<String>,
    ) -> (score: i32)
        ensures
            score == volatility_score(*signals),
            -2 <= score <= 2,
            texts(final(reasons)@) == texts(old(reasons)@) + volatility_reasons(*signals),
    {
        let mut score: i32 = 0;
        match signals.bollinger_signal {
            BollingerSignal::Squeeze => {
                push_reason(reasons, "Bollinger Squeeze - breakout setup");
            },
            BollingerSignal::UpperBreakout => {
                score += 1;
                push_reason(reasons, "Price broke above Bollinger upper");
            },
            BollingerSignal::LowerBreakout => {
                score -= 1;
                push_reason(reasons, "Price broke below Bollinger lower");
            },
            BollingerSignal::MeanReversion => {
                push_reason(reasons, "Bollinger mean reversion");
            },
            BollingerSignal::WalkingBands => {
                push_reason(reasons, "Walking the bands - strong trend");
            },
            BollingerSignal::Neutral => {},
        }
        assert(texts(reasons@) =~= texts(old(reasons)@) + signals.bollinger_signal.reasons());

        match signals.volatility_regime {
            VolatilityRegime::High => {
                push_reason(reasons, "High volatility - reduce size");
            },
            VolatilityRegime::Low => {
                push_reason(reasons, "Low volatility - breakout potential");
            },
            VolatilityRegime::Elevated => {
                push_reason(reasons, "Elevated volatility");
            },
            VolatilityRegime::Normal => {},
        }
        assert(texts(reasons@) =~= texts(old(reasons)@) + volatility_reasons(*signals));

        clamp_score(score, 2)
    }

    /// The volume score, within [-2, 2]; the reasons of on-balance volume
    /// and of the volume profile are appended to the trail in that order.
    pub fn score_volume(&self, signals: &IndicatorSignals, reasons: &mut Vec<String>) -> (score:
        i32)
        ensures
            score == volume_score(*signals),
            -2 <= score <= 2,
            texts(final(reasons)@) == texts(old(reasons)@) + volume_reasons(*signals),
    {
        let mut score: i32 = 0;
        match signals.obv_signal {
            OBVSignal::BullishDivergence => {
                score += 2;
                push_reason(reasons, "OBV bullish divergence");
            },
            OBVSignal::BearishDivergence => {
                score -= 2;
                push_reason(reasons, "OBV bearish divergence");
            },
            OBVSignal::Confirmation => {
                score += 1;
                push_reason(reasons, "Volume confirms price action");
            },
            OBVSignal::Neutral => {},
        }
        assert(texts(reasons@) =~= texts(old(reasons)@) + signals.obv_signal.reasons());

        match signals.volume_profile_signal {
            VolumeProfileSignal::POCSupport => {
                score += 1;
                push_reason(reasons, "Price at POC support");
            },
            VolumeProfileSignal::POCResistance => {
                score -= 1;
                push_reason(reasons, "Price at POC resistance");
            },
            VolumeProfileSignal::NearLVN => {
                push_reason(reasons, "Near LVN - expect fast move");
            },
            _ => {},
        }
        assert(texts(reasons@) =~= texts(old(reasons)@) + volume_reasons(*signals));

        clamp_score(score, 2)
    }

    /// The perp score, within [-2, 2]; the reasons of open interest and of
    /// funding are appended to the trail in that order.
    pub fn score_perp(&self, signals: &IndicatorSignals, reasons: &mut Vec<String>) -> (score:
        i32)
        ensures
            score == perp_score(*signals),
            -2 <= score <= 2,
            texts(final(reasons)@) == texts(old(reasons)@) + perp_reasons(*signals),
    {
        let mut score: i32 = 0;
        match signals.oi_signal {
            OpenInterestSignal::BullishExpansion => {
                score += 2;
                push_reason(reasons, "New money entering longs");
            },
            OpenInterestSignal::BearishExpansion => {
                score -= 2;
                push_reason(reasons, "New money entering shorts");
            },
            OpenInterestSignal::ShortSqueeze => {
                score += 1;
                push_reason(reasons, "Potential short squeeze");
            },
            OpenInterestSignal::LongSqueeze => {
                score -= 1;
                push_reason(reasons, "Long squeeze in progress");
            },
            OpenInterestSignal::Neutral => {},
        }
        assert(texts(reasons@) =~= texts(old(reasons)@) + signals.oi_signal.reasons());

        match signals.funding_signal {
            FundingSignal::ExtremeLongBias => {
                score -= 1;
                push_reason(reasons, "Extreme long bias - caution");
            },
            FundingSignal::ExtremShortBias => {
                score += 1;
                push_reason(reasons, "Extreme short bias - bounce potential");
            },
            _ => {},
        }
        assert(texts(reasons@) =~= texts(old(reasons)@) + perp_reasons(*signals));

        clamp_score(score, 2)
    }

    /// The confidence that five category scores carry, as a fraction with
    /// denominator 120.
    pub fn calculate_confidence(
        &self,
        trend: i32,
        momentum: i32,
        volatility: i32,
        volume: i32,
        perp: i32,
    ) -> (confidence: Confidence)
        ensures
            confidence.numerator == confidence_numerator(
                trend as int,
                momentum as int,
                volatility as int,
                volume as int,
                perp as int,
            ),
            confidence.denominator == CONFIDENCE_DENOMINATOR,
            confidence.wf(),
    {
        let positive: i64 = positive_of(trend) + positive_of(momentum) + positive_of(volatility)
            + positive_of(volume) + positive_of(perp);
        let negative: i64 = negative_of(trend) + negative_of(momentum) + negative_of(volatility)
            + negative_of(volume) + negative_of(perp);
        let magnitude: i64 = if positive >= negative {
            positive
        } else {
            negative
        };
        let trend_momentum_aligned = (trend > 0 && momentum > 0) || (trend < 0 && momentum < 0);
        let scaled: i64 = if trend_momentum_aligned {
            12 * magnitude
        } else {
            8 * magnitude
        };
        let numerator: u32 = if scaled > 120 {
            120
        } else {
            scaled as u32
        };
        Confidence { numerator, denominator: CONFIDENCE_DENOMINATOR }
    }

    /// The risk level of a set of readings whose category scores sum to
    /// `total_score`.
    pub fn assess_risk(&self, signals: &IndicatorSignals, total_score: i32) -> (level: RiskLevel)
        ensures
            level == risk_of(*signals, total_score as int),
    {
        let mut risk_factors: i32 = 0;

        if matches!(signals.volatility_regime, VolatilityRegime::High) {
            risk_factors += 2;
        }
        if signals.funding_signal.is_extreme() {
            risk_factors += 1;
        }
        if -2 < total_score && total_score < 2 {
            risk_factors += 1;
        }
        if signals.rsi_signal.is_divergence() && risk_factors > 0 {
            risk_factors -= 1;
        }

        if risk_factors >= 3 {
            RiskLevel::High
        } else if risk_factors >= 1 {
            RiskLevel::Medium
        } else {
            RiskLevel::Low
        }
    }
}

/// Every category score lies within the bound of its category: trend and
/// momentum within [-3, 3], volatility, volume and perp within [-2, 2]. The
/// total is their sum and lies within [-12, 12].
pub proof fn lemma_scores_bounded(signals: IndicatorSignals)
    ensures
        -3 <= trend_score(signals) <= 3,
        -3 <= momentum_score(signals) <= 3,
        -2 <= volatility_score(signals) <= 2,
        -2 <= volume_score(signals) <= 2,
        -2 <= perp_score(signals) <= 2,
        -12 <= total_score(signals) <= 12,
        total_score(signals) == trend_score(signals) + momentum_score(signals)
            + volatility_score(signals) + volume_score(signals) + perp_score(signals),
        breakdown_of(signals).wf(),
{
}

/// The confidence of every set of readings lies between zero and one.
pub proof fn lemma_confidence_within_unit(signals: IndicatorSignals)
    ensures
        confidence_of(signals).wf(),
        0 <= confidence_of(signals).numerator <= confidence_of(signals).denominator,
{
}

/// The trading signal of every set of readings is well formed: scores
/// within their bounds, the total their sum, the bias the step of the total,
/// the position that of the bias, the confidence a fraction of one.
pub proof fn lemma_aggregate_well_formed(signals: IndicatorSignals)
    ensures
        aggregate_spec(signals).wf(),
{
    lemma_scores_bounded(signals);
    lemma_confidence_within_unit(signals);
}

/// The rank of a bias, from 0 for the most bearish to 4 for the most
/// bullish.
pub open spec fn bias_rank(bias: MarketBias) -> int {
    match bias {
        MarketBias::StrongBearish => 0,
        MarketBias::Bearish => 1,
        MarketBias::Neutral => 2,
        MarketBias::Bullish => 3,
        MarketBias::StrongBullish => 4,
    }
}

/// The bias is a step function of the total score with steps at 7, 3, -3
/// and -7, and it never falls as the score rises.
pub proof fn lemma_bias_is_step_function(score: int, other: int)
    ensures
        bias_of_score(score) == MarketBias::StrongBullish <==> score >= 7,
        bias_of_score(score) == MarketBias::Bullish <==> 3 <= score < 7,
        bias_of_score(score) == MarketBias::Neutral <==> -3 < score < 3,
        bias_of_score(score) == MarketBias::Bearish <==> -7 < score <= -3,
        bias_of_score(score) == MarketBias::StrongBearish <==> score <= -7,
        score <= other ==> bias_rank(bias_of_score(score)) <= bias_rank(bias_of_score(other)),
{
}

/// Two trading signals that were aggregated from the same readings are the
/// same.
pub proof fn lemma_aggregate_deterministic(
    signals: IndicatorSignals,
    first: TradingSignal,
    second: TradingSignal,
)
    requires
        first@ == aggregate_spec(signals),
        second@ == aggregate_spec(signals),
    ensures
        first@ == second@,
{
}

/// Each indicator moves the score of one category only: two sets of
/// readings that agree on the indicators of a category have the same score
/// and the same reasons in it.
pub proof fn lemma_categories_independent(a: IndicatorSignals, b: IndicatorSignals)
    ensures
        a.ema_signal == b.ema_signal && a.supertrend_signal == b.supertrend_signal ==> trend_score(
            a,
        ) == trend_score(b) && trend_reasons(a) == trend_reasons(b),
        a.rsi_signal == b.rsi_signal && a.macd_signal == b.macd_signal ==> momentum_score(a)
            == momentum_score(b) && momentum_reasons(a) == momentum_reasons(b),
        a.bollinger_signal == b.bollinger_signal ==> volatility_score(a) == volatility_score(b),
        a.obv_signal == b.obv_signal && a.volume_profile_signal == b.volume_profile_signal
            ==> volume_score(a) == volume_score(b) && volume_reasons(a) == volume_reasons(b),
        a.oi_signal == b.oi_signal && a.funding_signal == b.funding_signal ==> perp_score(a)
            == perp_score(b) && perp_reasons(a) == perp_reasons(b),
{
}

/// The readings `signals` with the funding reading replaced.
pub open spec fn with_funding(signals: IndicatorSignals, funding: FundingSignal)
    -> IndicatorSignals {
    IndicatorSignals { funding_signal: funding, ..signals }
}

/// Funding is contrarian. Replacing the funding reading by an extreme long
/// bias never raises the perp score, the total score or the bias, and it
/// lowers the perp score strictly unless funding already was an extreme long
/// bias or open interest alone holds the score at its lower bound.
pub proof fn lemma_crowded_longs_lower_perp_score(signals: IndicatorSignals)
    ensures
        perp_score(with_funding(signals, FundingSignal::ExtremeLongBias)) <= perp_score(signals),
        total_score(with_funding(signals, FundingSignal::ExtremeLongBias)) <= total_score(signals),
        bias_rank(
            bias_of_score(total_score(with_funding(signals, FundingSignal::ExtremeLongBias))),
        ) <= bias_rank(bias_of_score(total_score(signals))),
        signals.funding_signal != FundingSignal::ExtremeLongBias && signals.oi_signal
            != OpenInterestSignal::BearishExpansion ==> perp_score(
            with_funding(signals, FundingSignal::ExtremeLongBias),
        ) < perp_score(signals),
{
}

} // verus!
