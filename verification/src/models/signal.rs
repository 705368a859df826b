//! The recommendation that one evaluation produces.

use vstd::prelude::*;
use crate::engine::signal::{Confidence, Position};

verus! {

/// The side to take.
#[derive(Debug, Clone, Copy, PartialEq, Eq, Structural)]
pub enum SignalDirection {
    Long,
    Short,
    Neutral,
}

impl SignalDirection {
    /// The direction that mirrors a position.
    pub open spec fn of_position(position: Position) -> SignalDirection {
        match position {
            Position::Long => SignalDirection::Long,
            Position::Short => SignalDirection::Short,
            Position::Neutral => SignalDirection::Neutral,
        }
    }

    /// The direction that mirrors a position.
    pub fn from_position(position: Position) -> (direction: SignalDirection)
        ensures
            direction == Self::of_position(position),
    {
        match position {
            Position::Long => SignalDirection::Long,
            Position::Short => SignalDirection::Short,
            Position::Neutral => SignalDirection::Neutral,
        }
    }
}

/// One entry of the reason trail: a text and its weight in hundredths.
#[derive(Debug, Clone)]
pub struct SignalReason {
    pub description: String,
    pub weight_pct: u32,
}

/// A reason as a mathematical value.
pub struct SignalReasonView {
    pub description: Seq<char>,
    pub weight_pct: nat,
}

impl View for SignalReason {
    type V = SignalReasonView;

    open spec fn view(&self) -> SignalReasonView {
        SignalReasonView { description: self.description@, weight_pct: self.weight_pct as nat }
    }
}

/// The views of a trail of weighted reasons, in order.
pub open spec fn reason_views(reasons: Seq<SignalReason>) -> Seq<SignalReasonView> {
    Seq::new(reasons.len(), |i: int| reasons[i]@)
}

/// The recommendation for one symbol. Stop-loss and take-profit are given
/// as multiples of the average true range, in tenths: the percentage of
/// price is `ATR * tenths / 10 / price * 100`.
#[derive(Debug, Clone)]
pub struct SignalDecision {
    pub direction: SignalDirection,
    pub confidence: Confidence,
    pub stop_loss_atr_tenths: u32,
    pub take_profit_atr_tenths: u32,
    pub reasons: Vec<SignalReason>,
    pub symbol: String,
}

/// A recommendation as a mathematical value.
pub struct SignalDecisionView {
    pub direction: SignalDirection,
    pub confidence: Confidence,
    pub stop_loss_atr_tenths: nat,
    pub take_profit_atr_tenths: nat,
    pub reasons: Seq<SignalReasonView>,
    pub symbol: Seq<char>,
}

impl View for SignalDecision {
    type V = SignalDecisionView;

    open spec fn view(&self) -> SignalDecisionView {
        SignalDecisionView {
            direction: self.direction,
            confidence: self.confidence,
            stop_loss_atr_tenths: self.stop_loss_atr_tenths as nat,
            take_profit_atr_tenths: self.take_profit_atr_tenths as nat,
            reasons: reason_views(self.reasons@),
            symbol: self.symbol@,
        }
    }
}

} // verus!
