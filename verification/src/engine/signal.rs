//! The result types of one evaluation and the step function from a total
//! score to a market bias.

use vstd::prelude::*;

verus! {

/// Five-level qualitative read of the market.
#[derive(Debug, Clone, Copy, PartialEq, Eq, Structural)]
pub enum MarketBias {
    StrongBullish,
    Bullish,
    Neutral,
    Bearish,
    StrongBearish,
}

/// The side a bias recommends.
#[derive(Debug, Clone, Copy, PartialEq, Eq, Structural)]
pub enum Position {
    Long,
    Short,
    Neutral,
}

/// The bias that belongs to a total score: a step function with steps at
/// 7, 3, -3 and -7.
pub open spec fn bias_of_score(score: int) -> MarketBias {
    if score >= 7 {
        MarketBias::StrongBullish
    } else if score >= 3 {
        MarketBias::Bullish
    } else if score > -3 {
        MarketBias::Neutral
    } else if score > -7 {
        MarketBias::Bearish
    } else {
        MarketBias::StrongBearish
    }
}

/// The position that belongs to a bias.
pub open spec fn position_of_bias(bias: MarketBias) -> Position {
    match bias {
        MarketBias::StrongBullish | MarketBias::Bullish => Position::Long,
        MarketBias::Neutral => Position::Neutral,
        MarketBias::Bearish | MarketBias::StrongBearish => Position::Short,
    }
}

impl MarketBias {
    pub fn from_score(score: i32) -> (bias: Self)
        ensures
            bias == bias_of_score(score as int),
    {
        if score >= 7 {
            MarketBias::StrongBullish
        } else if score >= 3 {
            MarketBias::Bullish
        } else if score > -3 {
            MarketBias::Neutral
        } else if score > -7 {
            MarketBias::Bearish
        } else {
            MarketBias::StrongBearish
        }
    }

    pub fn to_position(&self) -> (position: Position)
        ensures
            position == position_of_bias(*self),
    {
        match self {
            MarketBias::StrongBullish | MarketBias::Bullish => Position::Long,
            MarketBias::Neutral => Position::Neutral,
            MarketBias::Bearish | MarketBias::StrongBearish => Position::Short,
        }
    }
}

/// How much caution the reading of the market calls for.
#[derive(Debug, Clone, Copy, PartialEq, Eq, Structural)]
pub enum RiskLevel {
    Low,
    Medium,
    High,
}

impl RiskLevel {
    /// The name of the level, as it is written in a reason.
    pub open spec fn name(self) -> Seq<char> {
        match self {
            RiskLevel::Low => "Low"@,
            RiskLevel::Medium => "Medium"@,
            RiskLevel::High => "High"@,
        }
    }

    /// The reason that reports the level at the end of a trail.
    pub open spec fn reason(self) -> Seq<char> {
        "Risk level: "@ + self.name()
    }

    /// The reason that reports the level: the words `Risk level: ` and the
    /// level's name.
    pub fn describe(&self) -> (text: String)
        ensures
            text@ == self.reason(),
    {
        let name = match self {
            RiskLevel::Low => "Low",
            RiskLevel::Medium => "Medium",
            RiskLevel::High => "High",
        };
        String::from_str("Risk level: ").concat(name)
    }
}

/// The five category scores and their sum.
#[derive(Debug, Clone, Copy, PartialEq, Eq, Structural)]
pub struct ScoreBreakdown {
    pub trend_score: i32,
    pub momentum_score: i32,
    pub volatility_score: i32,
    pub volume_score: i32,
    pub perp_score: i32,
    pub total_score: i32,
}

impl ScoreBreakdown {
    /// Each score lies within the bound of its category, and the total is
    /// the sum of the five.
    pub open spec fn wf(self) -> bool {
        &&& -3 <= self.trend_score <= 3
        &&& -3 <= self.momentum_score <= 3
        &&& -2 <= self.volatility_score <= 2
        &&& -2 <= self.volume_score <= 2
        &&& -2 <= self.perp_score <= 2
        &&& self.total_score == self.trend_score + self.momentum_score + self.volatility_score
            + self.volume_score + self.perp_score
    }
}

/// A confidence as an exact fraction of one: `numerator / denominator`.
#[derive(Debug, Clone, Copy, PartialEq, Eq, Structural)]
pub struct Confidence {
    pub numerator: u32,
    pub denominator: u32,
}

impl Confidence {
    /// The fraction is defined and lies between zero and one.
    pub open spec fn wf(self) -> bool {
        0 < self.denominator && self.numerator <= self.denominator
    }
}

/// The texts of a trail of reasons, in order.
pub open spec fn texts(reasons: Seq<String>) -> Seq<Seq<char>> {
    Seq::new(reasons.len(), |i: int| reasons[i]@)
}

/// The outcome of fusing one set of indicator readings.
#[derive(Debug, Clone)]
pub struct TradingSignal {
    pub position: Position,
    pub confidence: Confidence,
    pub bias: MarketBias,
    pub score_breakdown: ScoreBreakdown,
    pub risk_level: RiskLevel,
    pub reasons: Vec<String>,
}

/// A trading signal as a mathematical value: the reasons are their texts.
pub struct TradingSignalView {
    pub position: Position,
    pub confidence: Confidence,
    pub bias: MarketBias,
    pub score_breakdown: ScoreBreakdown,
    pub risk_level: RiskLevel,
    pub reasons: Seq<Seq<char>>,
}

impl View for TradingSignal {
    type V = TradingSignalView;

    open spec fn view(&self) -> TradingSignalView {
        TradingSignalView {
            position: self.position,
            confidence: self.confidence,
            bias: self.bias,
            score_breakdown: self.score_breakdown,
            risk_level: self.risk_level,
            reasons: texts(self.reasons@),
        }
    }
}

impl TradingSignalView {
    /// The scores are within their bounds and sum to the total, the bias
    /// and the position follow from the total, and the confidence is a
    /// fraction of one.
    pub open spec fn wf(self) -> bool {
        &&& self.score_breakdown.wf()
        &&& self.confidence.wf()
        &&& self.bias == bias_of_score(self.score_breakdown.total_score as int)
        &&& self.position == position_of_bias(self.bias)
    }
}

} // verus!
