use basilisk::model::{Contract, VolatilityData};
use basilisk::text::{u64_pad2, u64_to_string};

fn bare_contract() -> Contract {
    Contract {
        id: 1,
        ticker: String::from("T"),
        signal_type: String::from("HOLD"),
        expected_value: 0,
        edge_percentage: 0,
        recommended_price: 0,
        confidence_score: 0,
        time_to_expiry_hours: None,
        is_active: true,
        strike_price: None,
        expiry_time: None,
        current_btc_price: None,
        yes_price: None,
        no_price: None,
        implied_probability: None,
        model_probability: None,
    }
}

#[test]
fn decimal_rendering() {
    assert_eq!(u64_to_string(0), "0");
    assert_eq!(u64_to_string(7), "7");
    assert_eq!(u64_to_string(65000), "65000");
    assert_eq!(u64_to_string(1000000), "1000000");
    assert_eq!(u64_pad2(3), "03");
    assert_eq!(u64_pad2(19), "19");
}

#[test]
fn time_left_rendering() {
    let mut c = bare_contract();
    assert_eq!(c.time_left_display(), "N/A");
    c.time_to_expiry_hours = Some(-1);
    assert_eq!(c.time_left_display(), "EXPIRED");
    c.time_to_expiry_hours = Some(7_500); // 0.75 h
    assert_eq!(c.time_left_display(), "45m");
    c.time_to_expiry_hours = Some(25_000); // 2.5 h
    assert_eq!(c.time_left_display(), "2h30m");
    c.time_to_expiry_hours = Some(30_000); // 3 h sharp
    assert_eq!(c.time_left_display(), "3h");
}

#[test]
fn near_expiry_threshold() {
    let mut c = bare_contract();
    assert!(!c.is_near_expiry());
    c.time_to_expiry_hours = Some(1_600); // under ten minutes
    assert!(c.is_near_expiry());
    c.time_to_expiry_hours = Some(1_700); // just over ten minutes
    assert!(!c.is_near_expiry());
    c.time_to_expiry_hours = Some(-5);
    assert!(c.is_near_expiry());
}

#[test]
fn expected_value_rendering() {
    let mut c = bare_contract();
    c.expected_value = 650; // 0.065 -> +6.5%
    assert_eq!(c.ev_display(), "+6.5%");
    c.expected_value = -120; // -0.012 -> -1.2%
    assert_eq!(c.ev_display(), "-1.2%");
    c.expected_value = 0;
    assert_eq!(c.ev_display(), "+0.0%");
}

#[test]
fn expected_value_rounds_to_nearest_tenth() {
    let mut c = bare_contract();
    c.expected_value = 567; // 5.67% rounds up
    assert_eq!(c.ev_display(), "+5.7%");
    c.expected_value = 563; // 5.63% rounds down
    assert_eq!(c.ev_display(), "+5.6%");
    c.expected_value = 565; // 5.65%, tie toward even 5.6
    assert_eq!(c.ev_display(), "+5.6%");
    c.expected_value = 575; // 5.75%, tie toward even 5.8
    assert_eq!(c.ev_display(), "+5.8%");
    c.expected_value = 995; // 9.95%, tie carries into the whole part
    assert_eq!(c.ev_display(), "+10.0%");
    c.expected_value = -567;
    assert_eq!(c.ev_display(), "-5.7%");
}

#[test]
fn money_rendering() {
    let mut c = bare_contract();
    assert_eq!(c.strike_display(), "N/A");
    assert_eq!(c.btc_price_display(), "N/A");
    c.strike_price = Some(660_000_000);
    c.current_btc_price = Some(655_500_000);
    assert_eq!(c.strike_display(), "$66000");
    assert_eq!(c.btc_price_display(), "$65550");
    c.strike_price = Some(-15_000); // -1.5 rounds away from the odd unit
    assert_eq!(c.strike_display(), "$-2");
}

#[test]
fn money_rounds_to_nearest_dollar() {
    // as the reference-style display rounds: nearest, ties to even
    let mut c = bare_contract();
    c.strike_price = Some(7_000); // 0.70
    assert_eq!(c.strike_display(), "$1");
    c.strike_price = Some(3_000); // 0.30
    assert_eq!(c.strike_display(), "$0");
    c.strike_price = Some(5_000); // 0.50, tie toward even 0
    assert_eq!(c.strike_display(), "$0");
    c.strike_price = Some(15_000); // 1.50, tie toward even 2
    assert_eq!(c.strike_display(), "$2");
    c.strike_price = Some(25_000); // 2.50, tie toward even 2
    assert_eq!(c.strike_display(), "$2");
    c.strike_price = Some(-7_000);
    assert_eq!(c.strike_display(), "$-1");
}

#[test]
fn strike_distance() {
    let mut c = bare_contract();
    assert_eq!(c.distance_dollars(), 0);
    assert_eq!(c.distance_percent(), 0);
    assert!(!c.is_above_strike());
    c.strike_price = Some(650_000_000);
    c.current_btc_price = Some(663_000_000);
    assert_eq!(c.distance_dollars(), 13_000_000);
    // 13000/650000 of the strike: exactly two percent, fixed-point
    assert_eq!(c.distance_percent(), 20_000);
    assert!(c.is_above_strike());
    c.current_btc_price = Some(640_000_000);
    assert!(!c.is_above_strike());
    assert_eq!(c.distance_dollars(), -10_000_000);
}

#[test]
fn expiry_rendering() {
    let mut c = bare_contract();
    assert_eq!(c.expiry_display(), "N/A");
    c.expiry_time = Some(String::from("not a date"));
    assert_eq!(c.expiry_display(), "N/A");
    c.expiry_time = Some(String::from("2024-01-15T19:30:00+00:00"));
    assert_eq!(c.expiry_display(), "19:30 UTC / 02PM EST");
    c.expiry_time = Some(String::from("2024-01-15T17:00:00+00:00"));
    assert_eq!(c.expiry_display(), "17:00 UTC / 12PM EST");
    c.expiry_time = Some(String::from("2024-01-15T13:05:00+00:00"));
    assert_eq!(c.expiry_display(), "13:05 UTC / 08AM EST");
    // an offset is honoured: 14:30-05:00 is 19:30 UTC
    c.expiry_time = Some(String::from("2024-01-15T14:30:00-05:00"));
    assert_eq!(c.expiry_display(), "19:30 UTC / 02PM EST");
}

#[test]
fn regime_labels() {
    let mut v = VolatilityData::neutral();
    assert_eq!(v.regime_label(), "UNKNOWN");
    v.regime = String::from("CALM");
    assert_eq!(v.regime_label(), "CALM");
    v.regime = String::from("CRISIS");
    assert_eq!(v.regime_label(), "CRISIS");
}
