use basilisk::decode::{decode_contract, decode_frame, decode_volatility};
use basilisk::json::JsonValue;
use basilisk::model::{AppEvent, ConnectionState};
use basilisk::state::AppState;

fn obj(fields: Vec<(&str, JsonValue)>) -> JsonValue {
    JsonValue::Obj(fields.into_iter().map(|(k, v)| (String::from(k), v)).collect())
}

fn full_contract_payload() -> JsonValue {
    obj(vec![
        ("id", JsonValue::Num(70_000)),
        ("ticker", JsonValue::Str(String::from("BTC-66000"))),
        ("signal_type", JsonValue::Str(String::from("BUY NO"))),
        ("expected_value", JsonValue::Num(450)),
        ("edge_percentage", JsonValue::Num(210)),
        ("recommended_price", JsonValue::Num(380_000)),
        ("confidence_score", JsonValue::Num(7_500)),
        ("time_to_expiry_hours", JsonValue::Num(7_500)),
        ("is_active", JsonValue::Bool(true)),
        ("strike_price", JsonValue::Num(660_000_000)),
        ("expiry_time", JsonValue::Str(String::from("2024-01-15T19:00:00+00:00"))),
        ("current_btc_price", JsonValue::Num(655_000_000)),
        ("yes_price", JsonValue::Null),
        ("no_price", JsonValue::Num(6_200)),
        ("implied_probability", JsonValue::Num(3_800)),
        ("model_probability", JsonValue::Num(3_100)),
    ])
}

#[test]
fn btc_price_frame_decodes() {
    let data = obj(vec![
        ("price", JsonValue::Num(650_000_000)),
        ("timestamp", JsonValue::Str(String::from("2024-01-15T19:00:00Z"))),
    ]);
    match decode_frame("btc_price", &data) {
        Some(AppEvent::BtcPriceUpdate { price, timestamp }) => {
            assert_eq!(price, 650_000_000);
            assert_eq!(timestamp, "2024-01-15T19:00:00Z");
        }
        other => panic!("unexpected decode result: {:?}", other),
    }
}

#[test]
fn malformed_price_frame_is_dropped() {
    // the `price` field is missing: the frame yields no event and the
    // state - connection state included - is unchanged
    let data = obj(vec![("timestamp", JsonValue::Str(String::from("t")))]);
    assert!(decode_frame("btc_price", &data).is_none());

    let mut s = AppState::new();
    s.apply_event(AppEvent::SseConnected);
    if let Some(e) = decode_frame("btc_price", &data) {
        s.apply_event(e);
    }
    assert_eq!(s.connection_state, ConnectionState::Connected);
    assert_eq!(s.current_btc_price, 0);
    assert_eq!(s.btc_price_history.len(), 0);
}

#[test]
fn price_with_wrong_shape_is_dropped() {
    let data = obj(vec![
        ("price", JsonValue::Str(String::from("65000"))),
        ("timestamp", JsonValue::Str(String::from("t"))),
    ]);
    assert!(decode_frame("btc_price", &data).is_none());
}

#[test]
fn connected_frame_is_informational_only() {
    let data = obj(vec![("message", JsonValue::Str(String::from("hello")))]);
    assert!(decode_frame("connected", &data).is_none());
}

#[test]
fn unknown_frame_is_ignored() {
    let data = obj(vec![("price", JsonValue::Num(1))]);
    assert!(decode_frame("heartbeat", &data).is_none());
}

#[test]
fn stream_open_then_price_update() {
    // stream opens, the `connected` frame carries no state event, then
    // one valid price frame sets the reference price and one history sample
    let mut s = AppState::new();
    s.apply_event(AppEvent::SseConnected);

    let greeting = obj(vec![("message", JsonValue::Str(String::from("hi")))]);
    if let Some(e) = decode_frame("connected", &greeting) {
        s.apply_event(e);
    }

    let data = obj(vec![
        ("price", JsonValue::Num(650_000_000)),
        ("timestamp", JsonValue::Str(String::from("t1"))),
    ]);
    let event = decode_frame("btc_price", &data).expect("valid frame");
    s.apply_event(event);

    assert_eq!(s.current_btc_price, 650_000_000);
    assert_eq!(s.btc_price_history.len(), 1);
    assert_eq!(s.btc_price_history.get(0), 65_000);
    assert_eq!(s.connection_state, ConnectionState::Connected);
}

#[test]
fn contract_record_decodes_whole() {
    let c = decode_contract(&full_contract_payload()).expect("valid contract");
    assert_eq!(c.id, 7);
    assert_eq!(c.ticker, "BTC-66000");
    assert_eq!(c.signal_type, "BUY NO");
    assert_eq!(c.expected_value, 450);
    assert_eq!(c.time_to_expiry_hours, Some(7_500));
    assert!(c.is_active);
    assert_eq!(c.strike_price, Some(660_000_000));
    assert_eq!(c.expiry_time.as_deref(), Some("2024-01-15T19:00:00+00:00"));
    assert_eq!(c.current_btc_price, Some(655_000_000));
    assert_eq!(c.yes_price, None);
    assert_eq!(c.no_price, Some(6_200));
}

#[test]
fn contract_with_fractional_id_is_rejected() {
    let mut v = full_contract_payload();
    if let JsonValue::Obj(ref mut fields) = v {
        fields[0].1 = JsonValue::Num(70_500);
    }
    assert!(decode_contract(&v).is_none());
}

#[test]
fn contract_missing_required_field_is_rejected() {
    let mut v = full_contract_payload();
    if let JsonValue::Obj(ref mut fields) = v {
        fields.retain(|(k, _)| k != "ticker");
    }
    assert!(decode_contract(&v).is_none());
}

#[test]
fn contract_with_wrong_optional_shape_is_rejected() {
    let mut v = full_contract_payload();
    if let JsonValue::Obj(ref mut fields) = v {
        for (k, val) in fields.iter_mut() {
            if k == "strike_price" {
                *val = JsonValue::Str(String::from("66000"));
            }
        }
    }
    assert!(decode_contract(&v).is_none());
}

#[test]
fn volatility_block_defaults_missing_fields() {
    let v = obj(vec![
        ("realized_vol", JsonValue::Num(7_000)),
        ("regime", JsonValue::Str(String::from("CALM"))),
    ]);
    let d = decode_volatility(&v).expect("valid block");
    assert_eq!(d.realized_vol, 7_000);
    assert_eq!(d.implied_vol, 0);
    assert_eq!(d.regime, "CALM");
    assert_eq!(d.vol_signal, "");
}

#[test]
fn volatility_block_with_wrong_shape_is_malformed() {
    let v = obj(vec![("realized_vol", JsonValue::Str(String::from("high")))]);
    assert!(decode_volatility(&v).is_none());
}

#[test]
fn contracts_update_frame_decodes() {
    let data = obj(vec![
        ("contracts", JsonValue::Arr(vec![full_contract_payload()])),
        ("timestamp", JsonValue::Str(String::from("t2"))),
        (
            "volatility",
            obj(vec![
                ("realized_vol", JsonValue::Num(7_000)),
                ("implied_vol", JsonValue::Num(4_900)),
                ("regime", JsonValue::Str(String::from("ELEVATED"))),
            ]),
        ),
    ]);
    match decode_frame("contracts_update", &data) {
        Some(AppEvent::ContractsUpdate { contracts, volatility, timestamp }) => {
            assert_eq!(contracts.len(), 1);
            assert_eq!(contracts[0].id, 7);
            assert_eq!(volatility.regime, "ELEVATED");
            assert_eq!(volatility.vol_premium, 0);
            assert_eq!(timestamp, "t2");
        }
        other => panic!("unexpected decode result: {:?}", other),
    }
}

#[test]
fn contracts_update_with_malformed_volatility_defaults() {
    let data = obj(vec![
        ("contracts", JsonValue::Arr(vec![])),
        ("timestamp", JsonValue::Str(String::from("t3"))),
        ("volatility", JsonValue::Str(String::from("oops"))),
    ]);
    match decode_frame("contracts_update", &data) {
        Some(AppEvent::ContractsUpdate { contracts, volatility, .. }) => {
            assert!(contracts.is_empty());
            assert_eq!(volatility.regime, "");
            assert_eq!(volatility.realized_vol, 0);
        }
        other => panic!("unexpected decode result: {:?}", other),
    }
}

#[test]
fn contracts_update_with_one_bad_record_is_dropped_whole() {
    let mut bad = full_contract_payload();
    if let JsonValue::Obj(ref mut fields) = bad {
        fields.retain(|(k, _)| k != "is_active");
    }
    let data = obj(vec![
        ("contracts", JsonValue::Arr(vec![full_contract_payload(), bad])),
        ("timestamp", JsonValue::Str(String::from("t4"))),
    ]);
    assert!(decode_frame("contracts_update", &data).is_none());
}

#[test]
fn contracts_update_without_timestamp_is_dropped() {
    let data = obj(vec![("contracts", JsonValue::Arr(vec![]))]);
    assert!(decode_frame("contracts_update", &data).is_none());
}

#[test]
fn duplicate_keys_take_the_first_binding() {
    let data = obj(vec![
        ("price", JsonValue::Num(650_000_000)),
        ("price", JsonValue::Num(1)),
        ("timestamp", JsonValue::Str(String::from("t"))),
    ]);
    match decode_frame("btc_price", &data) {
        Some(AppEvent::BtcPriceUpdate { price, .. }) => assert_eq!(price, 650_000_000),
        other => panic!("unexpected decode result: {:?}", other),
    }
}
