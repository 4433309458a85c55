use barter_integration::model::SubscriptionId;
use bybit_l1::book::{
    subscription_key_of, BybitOrderBookL1, BybitOrderBookL1Data, DecodeError, Field, ORDER_BOOK_L1,
};
use bybit_l1::event::{ExchangeId, Level, MarketIter, OrderBookL1};
use bybit_l1::json::{get_field, JsonValue};
use bybit_l1::time::Timestamp;

fn payload(v: &serde_json::Value) -> JsonValue {
    match v {
        serde_json::Value::Null => JsonValue::Null,
        serde_json::Value::Bool(b) => JsonValue::Bool(*b),
        serde_json::Value::Number(n) => match (n.as_i64(), n.as_u64()) {
            (Some(i), _) => JsonValue::Integer(i as i128),
            (None, Some(u)) => JsonValue::Integer(u as i128),
            _ => JsonValue::Real(n.to_string()),
        },
        serde_json::Value::String(s) => JsonValue::Text(s.clone()),
        serde_json::Value::Array(xs) => JsonValue::Array(xs.iter().map(payload).collect()),
        serde_json::Value::Object(fs) => {
            JsonValue::Object(fs.iter().map(|(k, v)| (k.clone(), payload(v))).collect())
        }
    }
}

fn parse_text(text: &str) -> JsonValue {
    payload(&serde_json::from_str::<serde_json::Value>(text).unwrap())
}

fn decode_text(text: &str) -> Result<BybitOrderBookL1, DecodeError> {
    BybitOrderBookL1::decode(&parse_text(text))
}

fn number(s: &String) -> Option<f64> {
    s.parse::<f64>().ok()
}

fn map_at(book: BybitOrderBookL1, received: Timestamp) -> MarketIter<String, OrderBookL1<f64>> {
    MarketIter::from_order_book_l1(
        ExchangeId::BybitSpot,
        "BTCUSDT".to_string(),
        book,
        received,
        &number,
        0.0,
    )
}

fn message(bids: &str, asks: &str) -> String {
    format!(
        r#"{{"topic":"orderbook.1.BTCUSDT","ts":1724458107654,"type":"delta",
            "data":{{"s":"BTCUSDT","b":{},"a":{},"u":37965267,"seq":38244420107}},
            "cts":1724458107650}}"#,
        bids, asks
    )
}

fn only_event(
    iter: MarketIter<String, OrderBookL1<f64>>,
) -> bybit_l1::event::MarketEvent<String, OrderBookL1<f64>> {
    assert_eq!(iter.0.len(), 1);
    match iter.0.into_iter().next() {
        Some(Ok(event)) => event,
        _ => panic!("Failed to get market event from MarketIter"),
    }
}

#[test]
fn test_bybit_order_book_l1() {
    let input = r#"
    {
        "topic": "orderbook.1.BTCUSDT",
        "ts": 1724458107654,
        "type": "delta",
        "data": {
            "s": "BTCUSDT",
            "b": [["64055.75", "0.503641"]],
            "a": [["64055.76", "0.123456"]],
            "u": 37965267,
            "seq": 38244420107
        },
        "cts": 1724458107650
    }
    "#;
    let actual: BybitOrderBookL1 = decode_text(input).unwrap();

    assert_eq!(actual.topic, "orderbook.1.BTCUSDT");
    assert_eq!(actual.ts.timestamp_millis(), 1724458107654);
    assert_eq!(actual.update_type, "delta");
    assert_eq!(actual.data.s, "BTCUSDT");
    assert_eq!(actual.data.b[0][0], "64055.75");
    assert_eq!(actual.data.b[0][1], "0.503641");
    assert_eq!(actual.data.a[0][0], "64055.76");
    assert_eq!(actual.data.a[0][1], "0.123456");
    assert_eq!(actual.data.u, 37965267);
    assert_eq!(actual.data.seq, 38244420107);
    assert_eq!(actual.cts, 1724458107650);

    assert_eq!(actual.id(), Some(SubscriptionId::from("orderbook.1|BTCUSDT")));

    let market_iter: MarketIter<String, OrderBookL1<f64>> = MarketIter::from_order_book_l1_now(
        ExchangeId::BybitSpot,
        "BTCUSDT".to_string(),
        actual,
        &number,
        0.0,
    );

    if let Some(Ok(market_event)) = market_iter.0.get(0) {
        assert_eq!(market_event.instrument, "BTCUSDT");
        let OrderBookL1 { best_bid, best_ask, .. } = &market_event.kind;
        assert_eq!(best_bid.price, 64055.75);
        assert_eq!(best_bid.amount, 0.503641);
        assert_eq!(best_ask.price, 64055.76);
        assert_eq!(best_ask.amount, 0.123456);
    } else {
        panic!("Failed to get market event from MarketIter");
    }
}

#[test]
fn example_message_maps_to_canonical_event() {
    let book = decode_text(&message(r#"[["64055.75","0.503641"]]"#, r#"[["64055.76","0.123456"]]"#))
        .unwrap();
    let key = book.id().unwrap();
    assert_eq!(key.0, "orderbook.1|BTCUSDT");
    let received = Timestamp::from_millis(1724458107700).unwrap();
    let event = only_event(map_at(book, received));
    assert_eq!(event.exchange_time.timestamp_millis(), 1724458107654);
    assert_eq!(event.kind.last_update_time.timestamp_millis(), 1724458107654);
    assert_eq!(event.received_time, received);
    assert_eq!(event.exchange, ExchangeId::BybitSpot);
    assert_eq!(event.kind.best_bid, Level { price: 64055.75, amount: 0.503641 });
    assert_eq!(event.kind.best_ask, Level { price: 64055.76, amount: 0.123456 });
}

#[test]
fn empty_bids_give_zero_level() {
    let book = decode_text(&message("[]", r#"[["64055.76","0.123456"]]"#)).unwrap();
    assert!(book.data.b.is_empty());
    let event = only_event(map_at(book, Timestamp::from_millis(0).unwrap()));
    assert_eq!(event.kind.best_bid, Level { price: 0.0, amount: 0.0 });
    assert_eq!(event.kind.best_ask, Level { price: 64055.76, amount: 0.123456 });
}

#[test]
fn empty_asks_give_zero_level() {
    let book = decode_text(&message(r#"[["1.5","2"]]"#, "[]")).unwrap();
    let event = only_event(map_at(book, Timestamp::from_millis(0).unwrap()));
    assert_eq!(event.kind.best_bid, Level { price: 1.5, amount: 2.0 });
    assert_eq!(event.kind.best_ask, Level { price: 0.0, amount: 0.0 });
}

#[test]
fn non_numeric_price_defaults_alone() {
    let book = decode_text(&message(r#"[["abc","0.5"]]"#, r#"[["10","x"]]"#)).unwrap();
    let event = only_event(map_at(book, Timestamp::from_millis(0).unwrap()));
    assert_eq!(event.kind.best_bid, Level { price: 0.0, amount: 0.5 });
    assert_eq!(event.kind.best_ask, Level { price: 10.0, amount: 0.0 });
}

#[test]
fn only_first_level_counts() {
    let book = decode_text(&message(
        r#"[["100","1"],["99","2"]]"#,
        r#"[["101","3"],["102","4"]]"#,
    ))
    .unwrap();
    let event = only_event(map_at(book, Timestamp::from_millis(0).unwrap()));
    assert_eq!(event.kind.best_bid, Level { price: 100.0, amount: 1.0 });
    assert_eq!(event.kind.best_ask, Level { price: 101.0, amount: 3.0 });
}

#[test]
fn routing_key_is_stable_and_distinguishes_symbols() {
    assert_eq!(subscription_key_of(ORDER_BOOK_L1, "BTCUSDT"), "orderbook.1|BTCUSDT");
    assert_eq!(
        subscription_key_of(ORDER_BOOK_L1, "ETHUSDT"),
        subscription_key_of(ORDER_BOOK_L1, "ETHUSDT")
    );
    assert_ne!(
        subscription_key_of(ORDER_BOOK_L1, "BTCUSDT"),
        subscription_key_of(ORDER_BOOK_L1, "ETHUSDT")
    );
    assert_eq!(subscription_key_of("orderbook.50", "btcusdt"), "orderbook.50|btcusdt");
}

#[test]
fn decode_then_encode_keeps_fields() {
    let text = message(r#"[["64055.75","0.503641"],["1","2"]]"#, "[]");
    let book = decode_text(&text).unwrap();
    let again = BybitOrderBookL1::decode(&book.to_json()).unwrap();
    assert_eq!(again.topic, book.topic);
    assert_eq!(again.ts, book.ts);
    assert_eq!(again.update_type, book.update_type);
    assert_eq!(again.data.s, book.data.s);
    assert_eq!(again.data.b, book.data.b);
    assert_eq!(again.data.a, book.data.a);
    assert_eq!(again.data.u, book.data.u);
    assert_eq!(again.data.seq, book.data.seq);
    assert_eq!(again.cts, book.cts);
    match book.data.to_json() {
        JsonValue::Object(fs) => assert_eq!(fs.len(), 5),
        _ => panic!("data must encode as an object"),
    }
}

#[test]
fn mapping_order_does_not_matter() {
    let texts = [
        message(r#"[["1","2"]]"#, r#"[["3","4"]]"#),
        message("[]", r#"[["5","6"]]"#),
        message(r#"[["7","x"]]"#, "[]"),
    ];
    let at = Timestamp::from_millis(42).unwrap();
    let forward: Vec<_> = texts
        .iter()
        .map(|t| only_event(map_at(decode_text(t).unwrap(), at)))
        .collect();
    let mut backward: Vec<_> = texts
        .iter()
        .rev()
        .map(|t| only_event(map_at(decode_text(t).unwrap(), at)))
        .collect();
    backward.reverse();
    assert_eq!(forward, backward);
}

#[test]
fn payload_must_be_object() {
    assert_eq!(decode_text("[1,2]").unwrap_err(), DecodeError::Malformed(Field::Payload));
}

#[test]
fn missing_fields_are_named() {
    assert_eq!(
        decode_text(r#"{"ts":1,"type":"delta"}"#).unwrap_err(),
        DecodeError::Missing(Field::Topic)
    );
    assert_eq!(
        decode_text(r#"{"topic":"t","ts":1,"type":"delta","cts":1}"#).unwrap_err(),
        DecodeError::Missing(Field::Data)
    );
    let no_cts = r#"{"topic":"t","ts":1,"type":"delta",
        "data":{"s":"X","b":[],"a":[],"u":1,"seq":2}}"#;
    assert_eq!(decode_text(no_cts).unwrap_err(), DecodeError::Missing(Field::Cts));
    let no_seq = r#"{"topic":"t","ts":1,"type":"delta",
        "data":{"s":"X","b":[],"a":[],"u":1},"cts":1}"#;
    assert_eq!(decode_text(no_seq).unwrap_err(), DecodeError::Missing(Field::Sequence));
}

#[test]
fn malformed_fields_are_named() {
    let cases = [
        (r#"{"topic":5}"#, Field::Topic),
        (r#"{"topic":"t","ts":"1"}"#, Field::Ts),
        (r#"{"topic":"t","ts":1.5}"#, Field::Ts),
        (r#"{"topic":"t","ts":9223372036854775807}"#, Field::Ts),
        (r#"{"topic":"t","ts":1,"type":null}"#, Field::UpdateType),
        (r#"{"topic":"t","ts":1,"type":"delta","data":[]}"#, Field::Data),
        (r#"{"topic":"t","ts":1,"type":"delta","data":{"s":1}}"#, Field::Symbol),
        (r#"{"topic":"t","ts":1,"type":"delta","data":{"s":"X","b":[["1","2","3"]]}}"#, Field::Bids),
        (r#"{"topic":"t","ts":1,"type":"delta","data":{"s":"X","b":[],"a":[["1",2]]}}"#, Field::Asks),
        (r#"{"topic":"t","ts":1,"type":"delta","data":{"s":"X","b":[],"a":[],"u":-1}}"#, Field::UpdateId),
        (
            r#"{"topic":"t","ts":1,"type":"delta","data":{"s":"X","b":[],"a":[],"u":1,"seq":true}}"#,
            Field::Sequence,
        ),
    ];
    for (text, field) in cases {
        assert_eq!(decode_text(text).unwrap_err(), DecodeError::Malformed(field), "{}", text);
    }
    let big_cts = message("[]", "[]").replace("1724458107650", "18446744073709551616");
    assert_eq!(decode_text(&big_cts).unwrap_err(), DecodeError::Malformed(Field::Cts));
}

#[test]
fn largest_counters_decode() {
    let text = r#"{"topic":"t","ts":-1,"type":"snapshot",
        "data":{"s":"X","b":[],"a":[],"u":18446744073709551615,"seq":0},"cts":0}"#;
    let book = decode_text(text).unwrap();
    assert_eq!(book.data.u, u64::MAX);
    assert_eq!(book.data.seq, 0);
    assert_eq!(book.ts.timestamp_millis(), -1);
    assert_eq!(book.update_type, "snapshot");
}

#[test]
fn first_entry_of_a_key_wins() {
    let fs = vec![
        ("k".to_string(), JsonValue::Integer(1)),
        ("k".to_string(), JsonValue::Integer(2)),
    ];
    match get_field(&fs, "k") {
        Some(JsonValue::Integer(n)) => assert_eq!(*n, 1),
        _ => panic!("key must be found"),
    }
    assert!(get_field(&fs, "missing").is_none());
}

#[test]
fn timestamps_follow_chrono_range() {
    assert_eq!(Timestamp::from_millis(1724458107654).unwrap().timestamp_millis(), 1724458107654);
    assert!(Timestamp::from_millis(i64::MAX).is_none());
    assert!(Timestamp::from_millis(i64::MIN).is_none());
    assert!(Timestamp::now().timestamp_millis() > 1724458107654);
}

#[test]
fn explicit_data_encoding() {
    let data = BybitOrderBookL1Data {
        s: "ETHUSDT".to_string(),
        b: vec![["1".to_string(), "2".to_string()]],
        a: vec![],
        u: 3,
        seq: 4,
    };
    match data.to_json() {
        JsonValue::Object(fs) => {
            let keys: Vec<&str> = fs.iter().map(|(k, _)| k.as_str()).collect();
            assert_eq!(keys, vec!["s", "b", "a", "u", "seq"]);
        }
        _ => panic!("data must encode as an object"),
    }
}
