use crate::subscription::{debug_str_of, debug_string, descriptor_json, topic, Subscription};
use vstd::prelude::*;
use vstd::string::{StrSliceExecFns, StringExecFns};

verus! {

/// An inbound event, tagged on the wire by its `channel` field. Each variant
/// keeps what decides the topic it is delivered under; the payloads themselves
/// travel beside it untouched.
#[derive(Debug)]
pub enum Message {
    NoData,
    HyperliquidError(String),
    AllMids,
    /// A batch of trades, given by the coin of each trade in order.
    Trades { coins: Vec<String> },
    L2Book { coin: String },
    User,
    UserFills,
    Candle { coin: String, interval: String },
    SubscriptionResponse,
    OrderUpdates,
    UserFundings,
    UserNonFundingLedgerUpdates { user: [u8; 20] },
    Notification,
    Pong,
}

/// The topic whose subscribers receive `m`; the empty sequence where the
/// event goes to nobody.
pub open spec fn identifier_of(m: Message) -> Seq<char> {
    match m {
        Message::AllMids => descriptor_json(Subscription::AllMids),
        Message::User => "userEvents"@,
        Message::UserFills => "userFills"@,
        Message::Trades { coins } => if coins@.len() == 0 {
            Seq::empty()
        } else {
            descriptor_json(Subscription::Trades { coin: coins@[0] })
        },
        Message::L2Book { coin } => descriptor_json(Subscription::L2Book { coin }),
        Message::Candle { coin, interval } => descriptor_json(
            Subscription::Candle { coin, interval },
        ),
        Message::OrderUpdates => "orderUpdates"@,
        Message::UserFundings => "userFundings"@,
        Message::UserNonFundingLedgerUpdates { user } => descriptor_json(
            Subscription::UserNonFundingLedgerUpdates { user },
        ),
        Message::Notification => "notification"@,
        Message::SubscriptionResponse | Message::Pong | Message::NoData => Seq::empty(),
        Message::HyperliquidError(err) => "hyperliquid error: "@ + debug_str_of(err@),
    }
}

/// Derives the topic of an inbound event; the empty string where the event
/// goes to nobody.
pub fn get_identifier(message: &Message) -> (r: String)
    ensures
        r@ == identifier_of(*message),
{
    match message {
        Message::AllMids => topic(&Subscription::AllMids),
        Message::User => String::from_str("userEvents"),
        Message::UserFills => String::from_str("userFills"),
        Message::Trades { coins } => {
            if coins.len() == 0 {
                String::new()
            } else {
                topic(&Subscription::Trades { coin: coins[0].clone() })
            }
        },
        Message::L2Book { coin } => topic(&Subscription::L2Book { coin: coin.clone() }),
        Message::Candle { coin, interval } => topic(
            &Subscription::Candle { coin: coin.clone(), interval: interval.clone() },
        ),
        Message::OrderUpdates => String::from_str("orderUpdates"),
        Message::UserFundings => String::from_str("userFundings"),
        Message::UserNonFundingLedgerUpdates { user } => topic(
            &Subscription::UserNonFundingLedgerUpdates { user: *user },
        ),
        Message::Notification => String::from_str("notification"),
        Message::SubscriptionResponse | Message::Pong | Message::NoData => String::new(),
        Message::HyperliquidError(err) => {
            let s = String::from_str("hyperliquid error: ");
            let shown = debug_string(err);
            s.concat(shown.as_str())
        },
    }
}

/// Whether an inbound text frame is an event object worth decoding: it must
/// open with `{`; anything else (plain acknowledgements) is ignored.
pub fn is_event_text(text: &str) -> (r: bool)
    ensures
        r == (text@.len() > 0 && text@[0] == '{'),
{
    !text.is_empty() && text.get_char(0) == '{'
}

} // verus!
