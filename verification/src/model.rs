//! Data model of the dashboard core: connection status, contract
//! snapshots, volatility data, keyboard keys, and the unified event type
//! carried by the event channel.
//!
//! Fractional quantities arrive from the network as decimal numbers; the
//! model holds them as fixed-point integers scaled by [`SCALE`] (four
//! decimal places), so a price of 65000 is stored as 650_000_000 and a
//! probability of 0.25 as 2_500.

use vstd::prelude::*;
use vstd::string::StringExecFns;
use crate::text::{digit_char, spec_digits, u64_to_string};

verus! {

/// Fixed-point scale: stored value = real value times `SCALE`.
pub const SCALE: i64 = 10_000;

/// Connection status of the push stream, owned by the application state
/// and mutated only by the reconciler.
#[derive(Clone, Copy, PartialEq, Eq, Structural, Debug)]
pub enum ConnectionState {
    Connected,
    Disconnected,
    Connecting,
}

/// One tradable signal snapshot, replaced wholesale on each full update.
/// Numeric fields are fixed-point integers scaled by [`SCALE`].
#[derive(Debug)]
pub struct Contract {
    pub id: i32,
    pub ticker: String,
    pub signal_type: String,
    pub expected_value: i64,
    pub edge_percentage: i64,
    pub recommended_price: i64,
    pub confidence_score: i64,
    pub time_to_expiry_hours: Option<i64>,
    pub is_active: bool,
    pub strike_price: Option<i64>,
    pub expiry_time: Option<String>,
    pub current_btc_price: Option<i64>,
    pub yes_price: Option<i64>,
    pub no_price: Option<i64>,
    pub implied_probability: Option<i64>,
    pub model_probability: Option<i64>,
}

/// Mathematical image of a [`Contract`].
pub struct ContractModel {
    pub id: int,
    pub ticker: Seq<char>,
    pub signal_type: Seq<char>,
    pub expected_value: int,
    pub edge_percentage: int,
    pub recommended_price: int,
    pub confidence_score: int,
    pub time_to_expiry_hours: Option<int>,
    pub is_active: bool,
    pub strike_price: Option<int>,
    pub expiry_time: Option<Seq<char>>,
    pub current_btc_price: Option<int>,
    pub yes_price: Option<int>,
    pub no_price: Option<int>,
    pub implied_probability: Option<int>,
    pub model_probability: Option<int>,
}

impl View for Contract {
    type V = ContractModel;

    open spec fn view(&self) -> ContractModel {
        ContractModel {
            id: self.id as int,
            ticker: self.ticker@,
            signal_type: self.signal_type@,
            expected_value: self.expected_value as int,
            edge_percentage: self.edge_percentage as int,
            recommended_price: self.recommended_price as int,
            confidence_score: self.confidence_score as int,
            time_to_expiry_hours: match self.time_to_expiry_hours {
                Some(h) => Some(h as int),
                None => None,
            },
            is_active: self.is_active,
            strike_price: match self.strike_price {
                Some(p) => Some(p as int),
                None => None,
            },
            expiry_time: match &self.expiry_time {
                Some(t) => Some(t@),
                None => None,
            },
            current_btc_price: match self.current_btc_price {
                Some(p) => Some(p as int),
                None => None,
            },
            yes_price: match self.yes_price {
                Some(p) => Some(p as int),
                None => None,
            },
            no_price: match self.no_price {
                Some(p) => Some(p as int),
                None => None,
            },
            implied_probability: match self.implied_probability {
                Some(p) => Some(p as int),
                None => None,
            },
            model_probability: match self.model_probability {
                Some(p) => Some(p as int),
                None => None,
            },
        }
    }
}

impl DeepView for Contract {
    type V = ContractModel;

    open spec fn deep_view(&self) -> ContractModel {
        self@
    }
}

impl Clone for Contract {
    /// Cloning preserves the mathematical image of the contract.
    fn clone(&self) -> (r: Contract)
        ensures
            r@ == self@,
    {
        Contract {
            id: self.id,
            ticker: self.ticker.clone(),
            signal_type: self.signal_type.clone(),
            expected_value: self.expected_value,
            edge_percentage: self.edge_percentage,
            recommended_price: self.recommended_price,
            confidence_score: self.confidence_score,
            time_to_expiry_hours: self.time_to_expiry_hours,
            is_active: self.is_active,
            strike_price: self.strike_price,
            expiry_time: match &self.expiry_time {
                Some(t) => Some(t.clone()),
                None => None,
            },
            current_btc_price: self.current_btc_price,
            yes_price: self.yes_price,
            no_price: self.no_price,
            implied_probability: self.implied_probability,
            model_probability: self.model_probability,
        }
    }
}

/// Quotient truncated toward zero, as machine division computes it.
pub open spec fn trunc_div(a: int, b: int) -> int {
    let mag_a = if a < 0 {
        -a
    } else {
        a
    };
    let mag_b = if b < 0 {
        -b
    } else {
        b
    };
    if (a < 0) == (b < 0) {
        mag_a / mag_b
    } else {
        -(mag_a / mag_b)
    }
}

/// A magnitude rounded to the nearest multiple of `step`, ties to even,
/// counted in steps: how display formatting rounds a dropped fraction.
pub open spec fn spec_round_even(mag: int, step: int) -> int {
    let q = mag / step;
    let r = mag % step;
    if 2 * r > step {
        q + 1
    } else if 2 * r < step {
        q
    } else if q % 2 == 0 {
        q
    } else {
        q + 1
    }
}

/// Magnitude of a fixed-point value in whole units, rounded to the
/// nearest unit with ties to even.
pub open spec fn spec_whole_units(n: int) -> nat {
    spec_round_even(
        if n < 0 {
            -n
        } else {
            n
        },
        SCALE as int,
    ) as nat
}

/// A fixed-point amount as a dollar display: `$` then the whole units
/// rounded to the nearest dollar (ties to even), the sign between them.
pub open spec fn spec_money(n: int) -> Seq<char> {
    if n < 0 {
        "$"@ + "-"@ + spec_digits(spec_whole_units(n))
    } else {
        "$"@ + spec_digits(spec_whole_units(n))
    }
}

/// A fixed-point fraction as a signed percentage with one decimal place,
/// rounded to the nearest tenth with ties to even: `0.065` shows as
/// `+6.5%`.
pub open spec fn spec_signed_percent(n: int) -> Seq<char> {
    let deci = spec_round_even(
        if n < 0 {
            -n
        } else {
            n
        },
        10,
    );
    (if n < 0 {
        "-"@
    } else {
        "+"@
    }) + spec_digits((deci / 10) as nat) + "."@ + seq![digit_char(deci % 10)] + "%"@
}

/// Time to expiry as people read it: minutes under an hour, else hours
/// and minutes.
pub open spec fn spec_time_left(tte: Option<int>) -> Seq<char> {
    match tte {
        None => "N/A"@,
        Some(h) => if h < 0 {
            "EXPIRED"@
        } else if h < SCALE {
            spec_digits((h * 60 / (SCALE as int)) as nat) + "m"@
        } else {
            let whole = h / (SCALE as int);
            let m = (h % (SCALE as int)) * 60 / (SCALE as int);
            if m > 0 {
                spec_digits(whole as nat) + "h"@ + spec_digits(m as nat) + "m"@
            } else {
                spec_digits(whole as nat) + "h"@
            }
        },
    }
}

fn round_even(mag: u64, step: u64) -> (r: u64)
    requires
        1 < step < 1_000_000,
        mag <= i64::MAX as u64 + 1,
    ensures
        r as int == spec_round_even(mag as int, step as int),
{
    let q = mag / step;
    let rem = mag % step;
    if 2 * rem > step {
        q + 1
    } else if 2 * rem < step {
        q
    } else if q % 2 == 0 {
        q
    } else {
        q + 1
    }
}

fn money_display(n: i64) -> (s: String)
    ensures
        s@ == spec_money(n as int),
{
    let mut s = String::from_str("$");
    let mag: u64 = if n < 0 {
        (-(n as i128)) as u64
    } else {
        n as u64
    };
    let units = round_even(mag, SCALE as u64);
    if n < 0 {
        s.append("-");
    }
    let digits = u64_to_string(units);
    s.append(digits.as_str());
    proof {
        assert(units as nat == spec_whole_units(n as int));
    }
    s
}

impl Contract {
    /// Distance from the reference price to the strike, in fixed-point
    /// units; zero when either is unknown.
    pub fn distance_dollars(&self) -> (r: i128)
        ensures
            r == match (self@.current_btc_price, self@.strike_price) {
                (Some(c), Some(s)) => c - s,
                _ => 0,
            },
    {
        match (self.current_btc_price, self.strike_price) {
            (Some(c), Some(s)) => (c as i128) - (s as i128),
            _ => 0,
        }
    }

    /// The same distance as a fixed-point percentage of the strike,
    /// truncated toward zero; zero when either is unknown or the strike
    /// is zero.
    pub fn distance_percent(&self) -> (r: i128)
        ensures
            r == match (self@.current_btc_price, self@.strike_price) {
                (Some(c), Some(s)) => if s != 0 {
                    trunc_div((c - s) * 100 * (SCALE as int), s)
                } else {
                    0
                },
                _ => 0,
            },
    {
        match (self.current_btc_price, self.strike_price) {
            (Some(c), Some(s)) => {
                if s != 0 {
                    let num = ((c as i128) - (s as i128)) * 100 * (SCALE as i128);
                    let neg = (num < 0) != (s < 0);
                    let mag_num: i128 = if num < 0 {
                        -num
                    } else {
                        num
                    };
                    let mag_den: i128 = if s < 0 {
                        -(s as i128)
                    } else {
                        s as i128
                    };
                    let q = mag_num / mag_den;
                    if neg {
                        -q
                    } else {
                        q
                    }
                } else {
                    0
                }
            },
            _ => 0,
        }
    }

    /// Whether the reference price sits above the strike (the contract
    /// leans toward expiring in the money).
    pub fn is_above_strike(&self) -> (r: bool)
        ensures
            r == match (self@.current_btc_price, self@.strike_price) {
                (Some(c), Some(s)) => c > s,
                _ => false,
            },
    {
        match (self.current_btc_price, self.strike_price) {
            (Some(c), Some(s)) => c > s,
            _ => false,
        }
    }

    /// Whether the contract expires within ten minutes.
    pub fn is_near_expiry(&self) -> (r: bool)
        ensures
            r == match self@.time_to_expiry_hours {
                Some(h) => h * 60 < 10 * (SCALE as int),
                None => false,
            },
    {
        match self.time_to_expiry_hours {
            Some(h) => (h as i128) * 60 < 10 * (SCALE as i128),
            None => false,
        }
    }

    /// Time to expiry as people read it.
    pub fn time_left_display(&self) -> (s: String)
        ensures
            s@ == spec_time_left(self@.time_to_expiry_hours),
    {
        match self.time_to_expiry_hours {
            None => String::from_str("N/A"),
            Some(h) => {
                if h < 0 {
                    String::from_str("EXPIRED")
                } else if h < SCALE {
                    let minutes = (h * 60) / SCALE;
                    let mut s = u64_to_string(minutes as u64);
                    s.append("m");
                    s
                } else {
                    let whole = h / SCALE;
                    let m = ((h % SCALE) * 60) / SCALE;
                    let mut s = u64_to_string(whole as u64);
                    s.append("h");
                    if m > 0 {
                        let md = u64_to_string(m as u64);
                        s.append(md.as_str());
                        s.append("m");
                    }
                    s
                }
            },
        }
    }

    /// Expected value as a signed percentage with one decimal place,
    /// rounded as the dollar displays round.
    pub fn ev_display(&self) -> (s: String)
        ensures
            s@ == spec_signed_percent(self@.expected_value),
    {
        let n = self.expected_value;
        let mag: u64 = if n < 0 {
            (-(n as i128)) as u64
        } else {
            n as u64
        };
        let deci = round_even(mag, 10);
        let mut s = String::from_str(if n < 0 {
            "-"
        } else {
            "+"
        });
        let digits = u64_to_string(deci / 10);
        s.append(digits.as_str());
        s.append(".");
        let last = crate::text::u64_to_string(deci % 10);
        s.append(last.as_str());
        s.append("%");
        proof {
            let spec_deci = spec_round_even(
                if (n as int) < 0 {
                    -(n as int)
                } else {
                    n as int
                },
                10,
            );
            assert(deci as int == spec_deci);
            assert(spec_digits((deci % 10) as nat) =~= seq![digit_char(spec_deci % 10)]);
        }
        s
    }

    /// The strike price as a dollar display, `N/A` when unknown.
    pub fn strike_display(&self) -> (s: String)
        ensures
            s@ == match self@.strike_price {
                Some(p) => spec_money(p),
                None => "N/A"@,
            },
    {
        match self.strike_price {
            Some(p) => money_display(p),
            None => String::from_str("N/A"),
        }
    }

    /// The reference price as a dollar display, `N/A` when unknown.
    pub fn btc_price_display(&self) -> (s: String)
        ensures
            s@ == match self@.current_btc_price {
                Some(p) => spec_money(p),
                None => "N/A"@,
            },
    {
        match self.current_btc_price {
            Some(p) => money_display(p),
            None => String::from_str("N/A"),
        }
    }
}

/// Volatility snapshot shown in the banner.  Defaults to the neutral
/// value when a payload carries none.  Numeric fields are fixed-point
/// integers scaled by [`SCALE`].
#[derive(Debug)]
pub struct VolatilityData {
    pub realized_vol: i64,
    pub implied_vol: i64,
    pub regime: String,
    pub vol_premium: i64,
    pub vol_premium_pct: i64,
    pub vol_signal: String,
}

/// Mathematical image of a [`VolatilityData`].
pub struct VolatilityModel {
    pub realized_vol: int,
    pub implied_vol: int,
    pub regime: Seq<char>,
    pub vol_premium: int,
    pub vol_premium_pct: int,
    pub vol_signal: Seq<char>,
}

impl View for VolatilityData {
    type V = VolatilityModel;

    open spec fn view(&self) -> VolatilityModel {
        VolatilityModel {
            realized_vol: self.realized_vol as int,
            implied_vol: self.implied_vol as int,
            regime: self.regime@,
            vol_premium: self.vol_premium as int,
            vol_premium_pct: self.vol_premium_pct as int,
            vol_signal: self.vol_signal@,
        }
    }
}

impl DeepView for VolatilityData {
    type V = VolatilityModel;

    open spec fn deep_view(&self) -> VolatilityModel {
        self@
    }
}

impl Clone for VolatilityData {
    /// Cloning preserves the mathematical image of the snapshot.
    fn clone(&self) -> (r: VolatilityData)
        ensures
            r@ == self@,
    {
        VolatilityData {
            realized_vol: self.realized_vol,
            implied_vol: self.implied_vol,
            regime: self.regime.clone(),
            vol_premium: self.vol_premium,
            vol_premium_pct: self.vol_premium_pct,
            vol_signal: self.vol_signal.clone(),
        }
    }
}

/// The neutral volatility value: every number zero, every label empty.
pub open spec fn neutral_volatility() -> VolatilityModel {
    VolatilityModel {
        realized_vol: 0,
        implied_vol: 0,
        regime: Seq::<char>::empty(),
        vol_premium: 0,
        vol_premium_pct: 0,
        vol_signal: Seq::<char>::empty(),
    }
}

impl VolatilityData {
    /// The neutral value used when a payload carries no volatility block.
    pub fn neutral() -> (r: VolatilityData)
        ensures
            r@ == neutral_volatility(),
    {
        VolatilityData {
            realized_vol: 0,
            implied_vol: 0,
            regime: String::new(),
            vol_premium: 0,
            vol_premium_pct: 0,
            vol_signal: String::new(),
        }
    }

    /// Label shown for the volatility regime: the regime itself, or
    /// `UNKNOWN` when no regime has been received.
    pub fn regime_label(&self) -> (r: String)
        ensures
            r@ == if self@.regime.len() == 0 {
                "UNKNOWN"@
            } else {
                self@.regime
            },
    {
        if self.regime.as_str().is_empty() {
            String::from_str("UNKNOWN")
        } else {
            self.regime.clone()
        }
    }
}

impl Default for VolatilityData {
    fn default() -> (r: VolatilityData)
        ensures
            r@ == neutral_volatility(),
    {
        VolatilityData::neutral()
    }
}

/// A keyboard key, as far as the dispatcher distinguishes them.
#[derive(Clone, Copy, PartialEq, Eq, Structural, Debug)]
pub enum Key {
    Char(char),
    Esc,
    Up,
    Down,
    Other,
}

/// Unified event type: the sole unit of cross-context communication.
/// All mutation of the application state happens by folding one event at
/// a time, in arrival order.
#[derive(Debug)]
pub enum AppEvent {
    /// Keyboard input, dispatched by the main loop.
    Keyboard(Key),
    /// Stream connection established.
    SseConnected,
    /// Stream connection closed gracefully.
    SseDisconnected,
    /// Reference price update from the stream.
    BtcPriceUpdate { price: i64, timestamp: String },
    /// Full contracts update from the stream.
    ContractsUpdate { contracts: Vec<Contract>, volatility: VolatilityData, timestamp: String },
    /// Stream-level error.
    SseError(String),
    /// Periodic refresh tick.
    Tick,
    /// Shutdown request.
    Quit,
}

/// Mathematical image of an [`AppEvent`].
pub enum EventModel {
    Keyboard(Key),
    SseConnected,
    SseDisconnected,
    BtcPriceUpdate { price: int, timestamp: Seq<char> },
    ContractsUpdate { contracts: Seq<ContractModel>, volatility: VolatilityModel, timestamp: Seq<char> },
    SseError(Seq<char>),
    Tick,
    Quit,
}

impl View for AppEvent {
    type V = EventModel;

    open spec fn view(&self) -> EventModel {
        match self {
            AppEvent::Keyboard(k) => EventModel::Keyboard(*k),
            AppEvent::SseConnected => EventModel::SseConnected,
            AppEvent::SseDisconnected => EventModel::SseDisconnected,
            AppEvent::BtcPriceUpdate { price, timestamp } => (EventModel::BtcPriceUpdate {
                price: *price as int,
                timestamp: timestamp@,
            }),
            AppEvent::ContractsUpdate { contracts, volatility, timestamp } => (EventModel::ContractsUpdate {
                contracts: contracts.deep_view(),
                volatility: volatility@,
                timestamp: timestamp@,
            }),
            AppEvent::SseError(msg) => EventModel::SseError(msg@),
            AppEvent::Tick => EventModel::Tick,
            AppEvent::Quit => EventModel::Quit,
        }
    }
}

impl DeepView for AppEvent {
    type V = EventModel;

    open spec fn deep_view(&self) -> EventModel {
        self@
    }
}

/// Shape of the health-check reply of the request/response API client.
#[derive(Clone, Debug)]
pub struct HealthResponse {
    pub status: String,
    pub service: String,
}

/// Shape of a trade-from-signal request sent to the API client.
#[derive(Clone, Debug)]
pub struct SignalTradeRequest {
    pub signal_id: i32,
    pub contracts: i32,
}

/// View state of the hourly-statistics screen; rendering reads it.
pub struct HourlyStatsView;

impl HourlyStatsView {
    pub fn new() -> (r: HourlyStatsView) {
        HourlyStatsView
    }
}

/// View state of the volatility-skew screen; rendering reads it.
pub struct VolSkewView;

impl VolSkewView {
    pub fn new() -> (r: VolSkewView) {
        VolSkewView
    }
}

} // verus!
