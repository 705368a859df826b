//! The messages exchanged with the stream, as plain records.

use vstd::prelude::*;

verus! {

/// A request to the stream.
#[derive(Debug, Clone)]
pub enum RequestMessage {
    Subscribe { subscription: Subscription },
    Unsubscribe { subscription: Subscription },
}

/// What a request subscribes to.
#[derive(Debug, Clone)]
pub enum Subscription {
    Candle { sub_type: String, coin: String, interval: String },
    AllMids { sub_type: String, dex: Option<String> },
    Notification { sub_type: String, user: String },
}

impl Subscription {
    /// The candle subscription for a coin and an interval; its type is
    /// `candle`.
    pub fn candle(coin: &str, interval: &str) -> (subscription: Self)
        ensures
            subscription matches Subscription::Candle { sub_type, coin: c, interval: i }
                && sub_type@ == "candle"@ && c@ == coin@ && i@ == interval@,
    {
        Subscription::Candle {
            sub_type: String::from_str("candle"),
            coin: String::from_str(coin),
            interval: String::from_str(interval),
        }
    }

    /// The subscription to all mid prices, of one exchange or of the
    /// default one; its type is `allMids`.
    pub fn all_mids(dex: Option<String>) -> (subscription: Self)
        ensures
            subscription matches Subscription::AllMids { sub_type, dex: d } && sub_type@
                == "allMids"@ && d == dex,
    {
        Subscription::AllMids { sub_type: String::from_str("allMids"), dex }
    }
}

/// The stream's answer to a request.
#[derive(Debug, Clone)]
pub struct SubscriptionResponse {
    pub channel: String,
    pub data: SubscriptionResponseData,
    pub is_snapshot: Option<bool>,
}

#[derive(Debug, Clone)]
pub struct SubscriptionResponseData {
    pub method: String,
    pub subscription: Subscription,
}

/// Any message the stream sends.
#[derive(Debug, Clone)]
pub enum WebSocketMessage {
    SubscriptionResponse(SubscriptionResponse),
    CandleData(CandleData),
    AllMidsData(AllMidsData),
    Error(ErrorMessage),
}

#[derive(Debug, Clone)]
pub struct CandleData {
    pub channel: String,
    pub data: CandleUpdate,
}

/// One candle as the stream sends it: times in milliseconds, prices and
/// volume as decimal text.
#[derive(Debug, Clone)]
pub struct CandleUpdate {
    pub start_time: u64,
    pub end_time: u64,
    pub coin: String,
    pub interval: String,
    pub open: String,
    pub high: String,
    pub low: String,
    pub close: String,
    pub volume: String,
    pub trades: Option<u64>,
}

#[derive(Debug, Clone)]
pub struct AllMidsData {
    pub channel: String,
    pub data: Vec<MidPrice>,
}

#[derive(Debug, Clone)]
pub struct MidPrice {
    pub coin: String,
    pub px: String,
}

#[derive(Debug, Clone)]
pub struct ErrorMessage {
    pub channel: String,
    pub data: ErrorData,
}

#[derive(Debug, Clone)]
pub struct ErrorData {
    pub error: String,
}

} // verus!
