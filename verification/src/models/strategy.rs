//! The vocabulary of rule-based strategies.

use vstd::prelude::*;

verus! {

/// What kind of node a rule is.
#[derive(Debug, Clone, Copy, PartialEq, Eq, Structural)]
pub enum RuleType {
    Condition,
    Group,
    WeightedGroup,
}

/// The indicators a condition can test.
#[derive(Debug, Clone, Copy, PartialEq, Eq, Structural)]
pub enum IndicatorType {
    MACD,
    RSI,
    EMA,
    SuperTrend,
    Bollinger,
    ATR,
    OBV,
    VolumeProfile,
    FundingRate,
    OpenInterest,
}

/// How a condition compares.
#[derive(Debug, Clone, Copy, PartialEq, Eq, Structural)]
pub enum Comparison {
    GreaterThan,
    LessThan,
    GreaterEqual,
    LessEqual,
    Equal,
    NotEqual,
    InRange,
    SignalState,
}

/// How a group joins its children.
#[derive(Debug, Clone, Copy, PartialEq, Eq, Structural)]
pub enum LogicalOperator {
    AND,
    OR,
}

/// How rule results are combined.
#[derive(Debug, Clone, Copy, PartialEq, Eq, Structural)]
pub enum AggregationMethod {
    Sum,
    WeightedSum,
    Majority,
    All,
    Any,
}

/// The scores from which a strategy goes long or short.
#[derive(Debug, Clone, Copy, PartialEq, Eq, Structural)]
pub struct SignalThresholds {
    pub long_min: i32,
    pub short_max: i32,
}

/// How a strategy combines its rules and reads the result.
#[derive(Debug, Clone, Copy, PartialEq, Eq, Structural)]
pub struct AggregationConfig {
    pub method: AggregationMethod,
    pub thresholds: SignalThresholds,
}

} // verus!
