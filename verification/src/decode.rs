//! Fallible decode-and-validate of stream messages.  Each inbound frame
//! carries a type discriminator and a payload tree; a frame either
//! decodes to one typed event or is dropped whole.  Partial application
//! of a malformed payload is never permitted.

use vstd::prelude::*;
use vstd::string::StringExecFns;
use crate::json::{JsonValue, spec_get};
use crate::model::{
    AppEvent, Contract, ContractModel, EventModel, VolatilityData, VolatilityModel,
    neutral_volatility, SCALE,
};
use crate::state::{StateModel, replay};

verus! {

/// A required numeric field: present and a number, else the payload is
/// malformed.
pub open spec fn spec_req_num(v: JsonValue, key: Seq<char>) -> Option<int> {
    match spec_get(v, key) {
        Some(JsonValue::Num(n)) => Some(n as int),
        _ => None,
    }
}

/// A required text field.
pub open spec fn spec_req_text(v: JsonValue, key: Seq<char>) -> Option<Seq<char>> {
    match spec_get(v, key) {
        Some(JsonValue::Str(s)) => Some(s@),
        _ => None,
    }
}

/// A required boolean field.
pub open spec fn spec_req_bool(v: JsonValue, key: Seq<char>) -> Option<bool> {
    match spec_get(v, key) {
        Some(JsonValue::Bool(b)) => Some(b),
        _ => None,
    }
}

/// An optional numeric field: absent or `null` reads as nothing, a
/// number reads as itself, any other shape is malformed.
pub open spec fn spec_opt_num(v: JsonValue, key: Seq<char>) -> Option<Option<int>> {
    match spec_get(v, key) {
        None => Some(None),
        Some(JsonValue::Null) => Some(None),
        Some(JsonValue::Num(n)) => Some(Some(n as int)),
        Some(_) => None,
    }
}

/// An optional text field, by the same rule.
pub open spec fn spec_opt_text(v: JsonValue, key: Seq<char>) -> Option<Option<Seq<char>>> {
    match spec_get(v, key) {
        None => Some(None),
        Some(JsonValue::Null) => Some(None),
        Some(JsonValue::Str(s)) => Some(Some(s@)),
        Some(_) => None,
    }
}

/// A numeric field with a zero default: absent reads as zero, a number
/// as itself, any other shape is malformed.
pub open spec fn spec_dfl_num(v: JsonValue, key: Seq<char>) -> Option<int> {
    match spec_get(v, key) {
        None => Some(0),
        Some(JsonValue::Num(n)) => Some(n as int),
        Some(_) => None,
    }
}

/// A text field with an empty default, by the same rule.
pub open spec fn spec_dfl_text(v: JsonValue, key: Seq<char>) -> Option<Seq<char>> {
    match spec_get(v, key) {
        None => Some(Seq::<char>::empty()),
        Some(JsonValue::Str(s)) => Some(s@),
        Some(_) => None,
    }
}

/// A contract identifier: a fixed-point number that is exactly a whole
/// integer within the identifier range.
pub open spec fn spec_contract_id(n: int) -> Option<int> {
    if n % (SCALE as int) == 0 && i32::MIN <= n / (SCALE as int) <= i32::MAX {
        Some(n / (SCALE as int))
    } else {
        None
    }
}

/// One contract record of a `contracts_update` payload.
pub open spec fn spec_decode_contract(v: JsonValue) -> Option<ContractModel> {
    let idn = spec_req_num(v, "id"@);
    let ticker = spec_req_text(v, "ticker"@);
    let signal_type = spec_req_text(v, "signal_type"@);
    let expected_value = spec_req_num(v, "expected_value"@);
    let edge_percentage = spec_req_num(v, "edge_percentage"@);
    let recommended_price = spec_req_num(v, "recommended_price"@);
    let confidence_score = spec_req_num(v, "confidence_score"@);
    let time_to_expiry_hours = spec_opt_num(v, "time_to_expiry_hours"@);
    let is_active = spec_req_bool(v, "is_active"@);
    let strike_price = spec_opt_num(v, "strike_price"@);
    let expiry_time = spec_opt_text(v, "expiry_time"@);
    let current_btc_price = spec_opt_num(v, "current_btc_price"@);
    let yes_price = spec_opt_num(v, "yes_price"@);
    let no_price = spec_opt_num(v, "no_price"@);
    let implied_probability = spec_opt_num(v, "implied_probability"@);
    let model_probability = spec_opt_num(v, "model_probability"@);
    if idn is Some && spec_contract_id(idn.unwrap()) is Some && ticker is Some && signal_type
        is Some && expected_value is Some && edge_percentage is Some && recommended_price
        is Some && confidence_score is Some && time_to_expiry_hours is Some && is_active
        is Some && strike_price is Some && expiry_time is Some && current_btc_price is Some
        && yes_price is Some && no_price is Some && implied_probability is Some
        && model_probability is Some {
        Some(ContractModel {
            id: spec_contract_id(idn.unwrap()).unwrap(),
            ticker: ticker.unwrap(),
            signal_type: signal_type.unwrap(),
            expected_value: expected_value.unwrap(),
            edge_percentage: edge_percentage.unwrap(),
            recommended_price: recommended_price.unwrap(),
            confidence_score: confidence_score.unwrap(),
            time_to_expiry_hours: time_to_expiry_hours.unwrap(),
            is_active: is_active.unwrap(),
            strike_price: strike_price.unwrap(),
            expiry_time: expiry_time.unwrap(),
            current_btc_price: current_btc_price.unwrap(),
            yes_price: yes_price.unwrap(),
            no_price: no_price.unwrap(),
            implied_probability: implied_probability.unwrap(),
            model_probability: model_probability.unwrap(),
        })
    } else {
        None
    }
}

/// A whole contract list: every record must decode, else the list is
/// malformed.
pub open spec fn spec_decode_contract_list(vs: Seq<JsonValue>) -> Option<Seq<ContractModel>> {
    if forall|i: int| 0 <= i < vs.len() ==> (#[trigger] spec_decode_contract(vs[i])) is Some {
        Some(Seq::new(vs.len(), |i: int| spec_decode_contract(vs[i]).unwrap()))
    } else {
        None
    }
}

/// A volatility block: an object whose known fields, where present, have
/// the right shape; absent fields take their neutral defaults.
pub open spec fn spec_decode_volatility(v: JsonValue) -> Option<VolatilityModel> {
    let realized_vol = spec_dfl_num(v, "realized_vol"@);
    let implied_vol = spec_dfl_num(v, "implied_vol"@);
    let regime = spec_dfl_text(v, "regime"@);
    let vol_premium = spec_dfl_num(v, "vol_premium"@);
    let vol_premium_pct = spec_dfl_num(v, "vol_premium_pct"@);
    let vol_signal = spec_dfl_text(v, "vol_signal"@);
    if v is Obj && realized_vol is Some && implied_vol is Some && regime is Some && vol_premium
        is Some && vol_premium_pct is Some && vol_signal is Some {
        Some(VolatilityModel {
            realized_vol: realized_vol.unwrap(),
            implied_vol: implied_vol.unwrap(),
            regime: regime.unwrap(),
            vol_premium: vol_premium.unwrap(),
            vol_premium_pct: vol_premium_pct.unwrap(),
            vol_signal: vol_signal.unwrap(),
        })
    } else {
        None
    }
}

/// The volatility a `contracts_update` payload carries: the decoded
/// block, or the neutral value when the block is absent or malformed.
pub open spec fn spec_volatility_of(v: JsonValue) -> VolatilityModel {
    match spec_get(v, "volatility"@) {
        None => neutral_volatility(),
        Some(b) => match spec_decode_volatility(b) {
            Some(m) => m,
            None => neutral_volatility(),
        },
    }
}

/// A `btc_price` payload: `price` and `timestamp` are both required.
pub open spec fn spec_decode_btc_price(v: JsonValue) -> Option<EventModel> {
    let price = spec_req_num(v, "price"@);
    let timestamp = spec_req_text(v, "timestamp"@);
    if price is Some && timestamp is Some {
        Some(EventModel::BtcPriceUpdate { price: price.unwrap(), timestamp: timestamp.unwrap() })
    } else {
        None
    }
}

/// A `contracts_update` payload: the contract list and the timestamp are
/// required; the volatility block defaults when absent or malformed.
pub open spec fn spec_decode_contracts_update(v: JsonValue) -> Option<EventModel> {
    let timestamp = spec_req_text(v, "timestamp"@);
    let contracts = match spec_get(v, "contracts"@) {
        Some(JsonValue::Arr(items)) => spec_decode_contract_list(items@),
        _ => None,
    };
    if timestamp is Some && contracts is Some {
        Some(EventModel::ContractsUpdate {
            contracts: contracts.unwrap(),
            volatility: spec_volatility_of(v),
            timestamp: timestamp.unwrap(),
        })
    } else {
        None
    }
}

/// The whole decode step: dispatch on the frame's type discriminator.
/// A `connected` frame is informational only, an unknown discriminator
/// is ignored, and a malformed payload yields no event at all.
pub open spec fn spec_decode_frame(event_type: Seq<char>, data: JsonValue) -> Option<EventModel> {
    if event_type == "btc_price"@ {
        spec_decode_btc_price(data)
    } else if event_type == "contracts_update"@ {
        spec_decode_contracts_update(data)
    } else {
        None
    }
}

/// The events one frame contributes to the channel: one, or none.
pub open spec fn spec_frame_events(event_type: Seq<char>, data: JsonValue) -> Seq<EventModel> {
    match spec_decode_frame(event_type, data) {
        Some(e) => seq![e],
        None => Seq::<EventModel>::empty(),
    }
}

/// A malformed `btc_price` frame (its `price` field missing) decodes to
/// no event, so the application state — connection state included — is
/// left exactly unchanged by the frame.
pub proof fn lemma_malformed_price_dropped(s: StateModel, event_type: Seq<char>, data: JsonValue)
    requires
        event_type == "btc_price"@,
        spec_get(data, "price"@) is None,
    ensures
        spec_decode_frame(event_type, data) is None,
        replay(s, spec_frame_events(event_type, data)) == s,
{
}

fn req_num(v: &JsonValue, key: &str) -> (r: Option<i64>)
    ensures
        match r {
            Some(n) => spec_req_num(*v, key@) == Some(n as int),
            None => spec_req_num(*v, key@) is None,
        },
{
    match v.get(key) {
        Some(x) => x.as_num(),
        None => None,
    }
}

fn req_text(v: &JsonValue, key: &str) -> (r: Option<String>)
    ensures
        match r {
            Some(s) => spec_req_text(*v, key@) == Some(s@),
            None => spec_req_text(*v, key@) is None,
        },
{
    match v.get(key) {
        Some(x) => match x.as_text() {
            Some(s) => Some(s.clone()),
            None => None,
        },
        None => None,
    }
}

fn req_bool(v: &JsonValue, key: &str) -> (r: Option<bool>)
    ensures
        match r {
            Some(b) => spec_req_bool(*v, key@) == Some(b),
            None => spec_req_bool(*v, key@) is None,
        },
{
    match v.get(key) {
        Some(JsonValue::Bool(b)) => Some(*b),
        _ => None,
    }
}

fn opt_num(v: &JsonValue, key: &str) -> (r: Option<Option<i64>>)
    ensures
        match r {
            Some(o) => spec_opt_num(*v, key@) == Some(
                match o {
                    Some(n) => Some(n as int),
                    None => None,
                },
            ),
            None => spec_opt_num(*v, key@) is None,
        },
{
    match v.get(key) {
        None => Some(None),
        Some(JsonValue::Null) => Some(None),
        Some(JsonValue::Num(n)) => Some(Some(*n)),
        Some(_) => None,
    }
}

fn opt_text(v: &JsonValue, key: &str) -> (r: Option<Option<String>>)
    ensures
        match r {
            Some(o) => spec_opt_text(*v, key@) == Some(
                match o {
                    Some(s) => Some(s@),
                    None => None,
                },
            ),
            None => spec_opt_text(*v, key@) is None,
        },
{
    match v.get(key) {
        None => Some(None),
        Some(JsonValue::Null) => Some(None),
        Some(JsonValue::Str(s)) => Some(Some(s.clone())),
        Some(_) => None,
    }
}

fn dfl_num(v: &JsonValue, key: &str) -> (r: Option<i64>)
    ensures
        match r {
            Some(n) => spec_dfl_num(*v, key@) == Some(n as int),
            None => spec_dfl_num(*v, key@) is None,
        },
{
    match v.get(key) {
        None => Some(0),
        Some(JsonValue::Num(n)) => Some(*n),
        Some(_) => None,
    }
}

fn dfl_text(v: &JsonValue, key: &str) -> (r: Option<String>)
    ensures
        match r {
            Some(s) => spec_dfl_text(*v, key@) == Some(s@),
            None => spec_dfl_text(*v, key@) is None,
        },
{
    match v.get(key) {
        None => Some(String::new()),
        Some(JsonValue::Str(s)) => Some(s.clone()),
        Some(_) => None,
    }
}

fn contract_id(n: i64) -> (r: Option<i32>)
    ensures
        match r {
            Some(id) => spec_contract_id(n as int) == Some(id as int),
            None => spec_contract_id(n as int) is None,
        },
{
    if n % SCALE == 0 {
        let q = n / SCALE;
        if i32::MIN as i64 <= q && q <= i32::MAX as i64 {
            Some(q as i32)
        } else {
            None
        }
    } else {
        None
    }
}

/// Decode one contract record, whole or not at all.
pub fn decode_contract(v: &JsonValue) -> (r: Option<Contract>)
    ensures
        match r {
            Some(c) => spec_decode_contract(*v) == Some(c@),
            None => spec_decode_contract(*v) is None,
        },
{
    let idn = match req_num(v, "id") {
        Some(x) => x,
        None => { return None },
    };
    let id = match contract_id(idn) {
        Some(x) => x,
        None => { return None },
    };
    let ticker = match req_text(v, "ticker") {
        Some(x) => x,
        None => { return None },
    };
    let signal_type = match req_text(v, "signal_type") {
        Some(x) => x,
        None => { return None },
    };
    let expected_value = match req_num(v, "expected_value") {
        Some(x) => x,
        None => { return None },
    };
    let edge_percentage = match req_num(v, "edge_percentage") {
        Some(x) => x,
        None => { return None },
    };
    let recommended_price = match req_num(v, "recommended_price") {
        Some(x) => x,
        None => { return None },
    };
    let confidence_score = match req_num(v, "confidence_score") {
        Some(x) => x,
        None => { return None },
    };
    let time_to_expiry_hours = match opt_num(v, "time_to_expiry_hours") {
        Some(x) => x,
        None => { return None },
    };
    let is_active = match req_bool(v, "is_active") {
        Some(x) => x,
        None => { return None },
    };
    let strike_price = match opt_num(v, "strike_price") {
        Some(x) => x,
        None => { return None },
    };
    let expiry_time = match opt_text(v, "expiry_time") {
        Some(x) => x,
        None => { return None },
    };
    let current_btc_price = match opt_num(v, "current_btc_price") {
        Some(x) => x,
        None => { return None },
    };
    let yes_price = match opt_num(v, "yes_price") {
        Some(x) => x,
        None => { return None },
    };
    let no_price = match opt_num(v, "no_price") {
        Some(x) => x,
        None => { return None },
    };
    let implied_probability = match opt_num(v, "implied_probability") {
        Some(x) => x,
        None => { return None },
    };
    let model_probability = match opt_num(v, "model_probability") {
        Some(x) => x,
        None => { return None },
    };
    Some(Contract {
        id,
        ticker,
        signal_type,
        expected_value,
        edge_percentage,
        recommended_price,
        confidence_score,
        time_to_expiry_hours,
        is_active,
        strike_price,
        expiry_time,
        current_btc_price,
        yes_price,
        no_price,
        implied_probability,
        model_probability,
    })
}

/// Decode a whole contract list, whole or not at all.
pub fn decode_contract_list(items: &Vec<JsonValue>) -> (r: Option<Vec<Contract>>)
    ensures
        match r {
            Some(cs) => spec_decode_contract_list(items@) == Some(cs.deep_view()),
            None => spec_decode_contract_list(items@) is None,
        },
{
    let mut out: Vec<Contract> = Vec::new();
    let mut i: usize = 0;
    while i < items.len()
        invariant
            i <= items.len(),
            out.deep_view().len() == i as int,
            forall|j: int|
                0 <= j < i as int ==> (#[trigger] spec_decode_contract(items@[j])) is Some,
            forall|j: int|
                0 <= j < i as int ==> out.deep_view()[j] == spec_decode_contract(
                    items@[j],
                ).unwrap(),
        decreases items.len() - i,
    {
        match decode_contract(&items[i]) {
            Some(c) => {
                let ghost pre_vec = out@;
                let ghost pre_deep = out.deep_view();
                out.push(c);
                proof {
                    assert(out@ == pre_vec.push(c));
                    assert forall|j: int| 0 <= j < i as int + 1 implies out.deep_view()[j]
                        == spec_decode_contract(items@[j]).unwrap() by {
                        assert(out.deep_view()[j] == out@[j].deep_view());
                        if j < i as int {
                            assert(out@[j] == pre_vec[j]);
                            assert(pre_deep[j] == pre_vec[j].deep_view());
                        } else {
                            assert(out@[j] == c);
                        }
                    }
                }
            },
            None => {
                return None;
            },
        }
        i += 1;
    }
    proof {
        assert(spec_decode_contract_list(items@) == Some(
            Seq::new(items@.len(), |j: int| spec_decode_contract(items@[j]).unwrap()),
        ));
        assert(out.deep_view() =~= Seq::new(
            items@.len(),
            |j: int| spec_decode_contract(items@[j]).unwrap(),
        ));
    }
    Some(out)
}

/// Decode a volatility block; `None` means malformed.
pub fn decode_volatility(v: &JsonValue) -> (r: Option<VolatilityData>)
    ensures
        match r {
            Some(d) => spec_decode_volatility(*v) == Some(d@),
            None => spec_decode_volatility(*v) is None,
        },
{
    let is_obj = match v {
        JsonValue::Obj(_) => true,
        _ => false,
    };
    if !is_obj {
        return None;
    }
    let realized_vol = match dfl_num(v, "realized_vol") {
        Some(x) => x,
        None => { return None },
    };
    let implied_vol = match dfl_num(v, "implied_vol") {
        Some(x) => x,
        None => { return None },
    };
    let regime = match dfl_text(v, "regime") {
        Some(x) => x,
        None => { return None },
    };
    let vol_premium = match dfl_num(v, "vol_premium") {
        Some(x) => x,
        None => { return None },
    };
    let vol_premium_pct = match dfl_num(v, "vol_premium_pct") {
        Some(x) => x,
        None => { return None },
    };
    let vol_signal = match dfl_text(v, "vol_signal") {
        Some(x) => x,
        None => { return None },
    };
    Some(VolatilityData {
        realized_vol,
        implied_vol,
        regime,
        vol_premium,
        vol_premium_pct,
        vol_signal,
    })
}

/// Decode one whole frame into the event it contributes, if any.
pub fn decode_frame(event_type: &str, data: &JsonValue) -> (r: Option<AppEvent>)
    ensures
        match r {
            Some(e) => spec_decode_frame(event_type@, *data) == Some(e@),
            None => spec_decode_frame(event_type@, *data) is None,
        },
{
    let discriminator = event_type.to_owned();
    if discriminator == String::from_str("btc_price") {
        let price = match req_num(data, "price") {
            Some(x) => x,
            None => { return None },
        };
        let timestamp = match req_text(data, "timestamp") {
            Some(x) => x,
            None => { return None },
        };
        Some(AppEvent::BtcPriceUpdate { price, timestamp })
    } else if discriminator == String::from_str("contracts_update") {
        let timestamp = match req_text(data, "timestamp") {
            Some(x) => x,
            None => { return None },
        };
        let contracts = match data.get("contracts") {
            Some(JsonValue::Arr(items)) => match decode_contract_list(items) {
                Some(cs) => cs,
                None => { return None },
            },
            _ => { return None },
        };
        let volatility = match data.get("volatility") {
            None => VolatilityData::neutral(),
            Some(b) => match decode_volatility(b) {
                Some(d) => d,
                None => VolatilityData::neutral(),
            },
        };
        Some(AppEvent::ContractsUpdate { contracts, volatility, timestamp })
    } else {
        None
    }
}

} // verus!
