use ws_manager::{Error, Message, Registry, Subscription};

fn btc_book() -> Subscription {
    Subscription::L2Book { coin: "BTC".to_string() }
}

const ALICE: [u8; 20] = [
    0x12, 0x34, 0x56, 0x78, 0x9a, 0xbc, 0xde, 0xf0, 0x00, 0x01,
    0x02, 0x03, 0x04, 0x05, 0x06, 0x07, 0x08, 0x09, 0xaa, 0xff
];
const ALICE_HEX: &str = "0x123456789abcdef000010203040506070809aaff";
const BOB: [u8; 20] = [
    0x00, 0x00, 0x00, 0x00, 0x00, 0x00, 0x00, 0x00, 0x00, 0x00,
    0x00, 0x00, 0x00, 0x00, 0x00, 0x00, 0x00, 0x00, 0x00, 0xbb
];

#[test]
fn book_subscription_lifecycle() {
    let mut reg = Registry::new();
    let frame = reg.subscribe_request(&btc_book()).unwrap();
    assert_eq!(
        frame.as_deref(),
        Some(r#"{"method":"subscribe","subscription":{"type":"l2Book","coin":"BTC"}}"#)
    );
    let id = reg.add_subscription(btc_book()).unwrap();
    assert_eq!(id, 0);

    let event = Message::L2Book { coin: "BTC".to_string() };
    assert_eq!(reg.route(&event), vec![0]);

    let frame = reg.remove_subscription(0).unwrap();
    assert_eq!(
        frame.as_deref(),
        Some(r#"{"method":"unsubscribe","subscription":{"type":"l2Book","coin":"BTC"}}"#)
    );
    assert!(reg.route(&event).is_empty());
}

#[test]
fn two_all_mids_subscribers_both_receive() {
    let mut reg = Registry::new();
    assert!(reg.subscribe_request(&Subscription::AllMids).unwrap().is_some());
    let a = reg.add_subscription(Subscription::AllMids).unwrap();
    assert_eq!(reg.subscribe_request(&Subscription::AllMids).unwrap(), None);
    let b = reg.add_subscription(Subscription::AllMids).unwrap();
    assert_eq!(reg.route(&Message::AllMids), vec![a, b]);
}

#[test]
fn second_subscriber_sends_no_subscribe() {
    let mut reg = Registry::new();
    reg.add_subscription(btc_book()).unwrap();
    assert_eq!(reg.subscribe_request(&btc_book()).unwrap(), None);
    let other = Subscription::L2Book { coin: "ETH".to_string() };
    assert!(reg.subscribe_request(&other).unwrap().is_some());
}

#[test]
fn remove_that_leaves_subscribers_sends_nothing() {
    let mut reg = Registry::new();
    let a = reg.add_subscription(btc_book()).unwrap();
    let b = reg.add_subscription(btc_book()).unwrap();
    assert_eq!(reg.remove_subscription(a).unwrap(), None);
    let event = Message::L2Book { coin: "BTC".to_string() };
    assert_eq!(reg.route(&event), vec![b]);
    assert!(reg.remove_subscription(b).unwrap().is_some());
}

#[test]
fn second_user_events_subscriber_is_refused() {
    let mut reg = Registry::new();
    let first = Subscription::UserEvents { user: ALICE };
    let frame = reg.subscribe_request(&first).unwrap().unwrap();
    assert_eq!(
        frame,
        format!(
            r#"{{"method":"subscribe","subscription":{{"type":"userEvents","user":"{}"}}}}"#,
            ALICE_HEX
        )
    );
    reg.add_subscription(first).unwrap();
    let second = Subscription::UserEvents { user: BOB };
    assert_eq!(reg.subscribe_request(&second), Err(Error::UserEvents));
    assert_eq!(reg.add_subscription(second), Err(Error::UserEvents));
    assert_eq!(reg.route(&Message::User), vec![0]);
    // the refused add consumed no id
    assert_eq!(reg.add_subscription(Subscription::AllMids), Ok(1));
}

#[test]
fn order_updates_share_one_topic() {
    let mut reg = Registry::new();
    let a = reg.add_subscription(Subscription::OrderUpdates { user: ALICE }).unwrap();
    let bob = Subscription::OrderUpdates { user: BOB };
    assert_eq!(reg.subscribe_request(&bob).unwrap(), None);
    let b = reg.add_subscription(bob).unwrap();
    assert_eq!(reg.route(&Message::OrderUpdates), vec![a, b]);
}

#[test]
fn unknown_or_removed_id_is_not_found() {
    let mut reg = Registry::new();
    assert_eq!(reg.remove_subscription(7), Err(Error::SubscriptionNotFound));
    let id = reg.add_subscription(btc_book()).unwrap();
    assert!(reg.remove_subscription(id).is_ok());
    assert_eq!(reg.remove_subscription(id), Err(Error::SubscriptionNotFound));
    assert_eq!(reg.all_subscribers(), Vec::<u32>::new());
}

#[test]
fn ids_increase_and_are_not_reused() {
    let mut reg = Registry::new();
    let a = reg.add_subscription(Subscription::AllMids).unwrap();
    let b = reg.add_subscription(btc_book()).unwrap();
    reg.remove_subscription(b).unwrap();
    reg.remove_subscription(a).unwrap();
    let c = reg.add_subscription(btc_book()).unwrap();
    assert_eq!((a, b, c), (0, 1, 2));
    assert_eq!(reg.all_subscribers(), vec![2]);
}

#[test]
fn empty_trade_batch_is_delivered_to_nobody() {
    let mut reg = Registry::new();
    reg.add_subscription(Subscription::Trades { coin: "BTC".to_string() }).unwrap();
    assert!(reg.route(&Message::Trades { coins: vec![] }).is_empty());
    let batch = Message::Trades { coins: vec!["BTC".to_string(), "ETH".to_string()] };
    assert_eq!(reg.route(&batch), vec![0]);
}

#[test]
fn events_reach_only_their_topic() {
    let mut reg = Registry::new();
    let btc = reg.add_subscription(btc_book()).unwrap();
    let eth = reg.add_subscription(Subscription::L2Book { coin: "ETH".to_string() }).unwrap();
    let events = reg.add_subscription(Subscription::UserEvents { user: ALICE }).unwrap();
    assert_eq!(reg.route(&Message::L2Book { coin: "ETH".to_string() }), vec![eth]);
    assert_eq!(reg.route(&Message::User), vec![events]);
    assert!(reg.route(&Message::OrderUpdates).is_empty());
    assert!(reg.route(&Message::Pong).is_empty());
    assert!(reg.route(&Message::NoData).is_empty());
    assert!(reg.route(&Message::SubscriptionResponse).is_empty());
    assert_eq!(reg.all_subscribers(), vec![btc, eth, events]);
}

#[test]
fn has_subscribers_tracks_topics() {
    let mut reg = Registry::new();
    let t = r#"{"type":"l2Book","coin":"BTC"}"#.to_string();
    assert!(!reg.has_subscribers(&t));
    reg.add_subscription(btc_book()).unwrap();
    assert!(reg.has_subscribers(&t));
    assert_eq!(reg.subscribers_of(&t), vec![0]);
}
