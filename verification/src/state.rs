//! Application state and reconciler: the single source of truth folding
//! every event deterministically, one at a time, in arrival order.

use vstd::prelude::*;
use crate::history::{HistoryBuffer, push_spec};
use crate::model::{
    AppEvent, ConnectionState, Contract, ContractModel, EventModel, Key, VolatilityData,
    VolatilityModel, neutral_volatility, SCALE,
};

verus! {

/// Mathematical image of the whole application state.
pub struct StateModel {
    pub contracts: Seq<ContractModel>,
    pub current_btc_price: int,
    pub connection_state: ConnectionState,
    pub last_update: Option<Seq<char>>,
    pub error_message: Option<Seq<char>>,
    pub show_help: bool,
    pub help_scroll: int,
    pub should_quit: bool,
    pub volatility_data: VolatilityModel,
    pub btc_price_history: Seq<u64>,
    pub realized_vol_history: Seq<u64>,
    pub implied_vol_history: Seq<u64>,
}

/// Canonical view of contracts, prices, volatility, connection status and
/// history buffers, consumed read-only by the renderer and mutated only
/// through the reconciler and the keyboard dispatcher.
pub struct AppState {
    pub contracts: Vec<Contract>,
    pub current_btc_price: i64,
    pub connection_state: ConnectionState,
    pub last_update: Option<String>,
    pub error_message: Option<String>,
    pub show_help: bool,
    pub help_scroll: u16,
    pub should_quit: bool,
    pub volatility_data: VolatilityData,
    pub btc_price_history: HistoryBuffer,
    pub realized_vol_history: HistoryBuffer,
    pub implied_vol_history: HistoryBuffer,
}

impl View for AppState {
    type V = StateModel;

    open spec fn view(&self) -> StateModel {
        StateModel {
            contracts: self.contracts.deep_view(),
            current_btc_price: self.current_btc_price as int,
            connection_state: self.connection_state,
            last_update: match &self.last_update {
                Some(t) => Some(t@),
                None => None,
            },
            error_message: match &self.error_message {
                Some(m) => Some(m@),
                None => None,
            },
            show_help: self.show_help,
            help_scroll: self.help_scroll as int,
            should_quit: self.should_quit,
            volatility_data: self.volatility_data@,
            btc_price_history: self.btc_price_history@,
            realized_vol_history: self.realized_vol_history@,
            implied_vol_history: self.implied_vol_history@,
        }
    }
}

/// The state a run starts from: empty contract list, zero price, status
/// `Connecting`, neutral volatility, empty history buffers.
pub open spec fn initial_state() -> StateModel {
    StateModel {
        contracts: Seq::<ContractModel>::empty(),
        current_btc_price: 0,
        connection_state: ConnectionState::Connecting,
        last_update: None,
        error_message: None,
        show_help: false,
        help_scroll: 0,
        should_quit: false,
        volatility_data: neutral_volatility(),
        btc_price_history: Seq::<u64>::empty(),
        realized_vol_history: Seq::<u64>::empty(),
        implied_vol_history: Seq::<u64>::empty(),
    }
}

/// The whole-dollar sample a fixed-point price contributes to the price
/// history (negative prices clamp to zero).
pub open spec fn price_sample(price: int) -> u64 {
    if price <= 0 {
        0u64
    } else {
        (price / (SCALE as int)) as u64
    }
}

/// The percentage-integer sample a fixed-point volatility contributes to
/// a volatility history (negative values clamp to zero).
pub open spec fn vol_sample(vol: int) -> u64 {
    if vol <= 0 {
        0u64
    } else {
        (vol / 100) as u64
    }
}

/// A contract with its reference-price field replaced.
pub open spec fn with_price(c: ContractModel, price: int) -> ContractModel {
    ContractModel { current_btc_price: Some(price), ..c }
}

/// The merge rules: what folding one event does to the state.
pub open spec fn reconcile(s: StateModel, e: EventModel) -> StateModel {
    match e {
        EventModel::Keyboard(_) => s,
        EventModel::Tick => s,
        EventModel::Quit => (StateModel { should_quit: true, ..s }),
        EventModel::SseConnected => (StateModel {
            connection_state: ConnectionState::Connected,
            error_message: None,
            ..s
        }),
        EventModel::SseDisconnected => (StateModel {
            connection_state: ConnectionState::Disconnected,
            error_message: Some("stream disconnected, reconnecting"@),
            ..s
        }),
        EventModel::SseError(msg) => (StateModel {
            connection_state: ConnectionState::Disconnected,
            error_message: Some(msg),
            ..s
        }),
        EventModel::BtcPriceUpdate { price, .. } => (StateModel {
            current_btc_price: price,
            contracts: s.contracts.map_values(|c: ContractModel| with_price(c, price)),
            btc_price_history: push_spec(s.btc_price_history, price_sample(price)),
            ..s
        }),
        EventModel::ContractsUpdate { contracts, volatility, timestamp } => {
            let base = StateModel {
                contracts: contracts,
                volatility_data: volatility,
                realized_vol_history: push_spec(
                    s.realized_vol_history,
                    vol_sample(volatility.realized_vol),
                ),
                implied_vol_history: push_spec(
                    s.implied_vol_history,
                    vol_sample(volatility.implied_vol),
                ),
                connection_state: ConnectionState::Connected,
                last_update: Some(timestamp),
                ..s
            };
            if contracts.len() > 0 {
                match contracts[0].current_btc_price {
                    Some(p) => (StateModel {
                        current_btc_price: p,
                        btc_price_history: push_spec(s.btc_price_history, price_sample(p)),
                        ..base
                    }),
                    None => base,
                }
            } else {
                base
            }
        },
    }
}

/// The state after folding every event of `es` in order.
pub open spec fn replay(s: StateModel, es: Seq<EventModel>) -> StateModel
    decreases es.len(),
{
    if es.len() == 0 {
        s
    } else {
        replay(reconcile(s, es[0]), es.skip(1))
    }
}

/// Folding one more event commutes with replay.
pub proof fn lemma_replay_push(s: StateModel, es: Seq<EventModel>, e: EventModel)
    ensures
        replay(s, es.push(e)) == reconcile(replay(s, es), e),
    decreases es.len(),
{
    let t = es.push(e);
    assert(t.len() == es.len() + 1);
    if es.len() == 0 {
        assert(t[0] == e);
        assert(t.skip(1) =~= Seq::<EventModel>::empty());
        assert(replay(s, t) == replay(reconcile(s, e), t.skip(1)));
        assert(replay(reconcile(s, e), t.skip(1)) == reconcile(s, e));
        assert(replay(s, es) == s);
    } else {
        assert(t[0] == es[0]);
        assert(t.skip(1) =~= es.skip(1).push(e));
        lemma_replay_push(reconcile(s, es[0]), es.skip(1), e);
        assert(replay(s, t) == replay(reconcile(s, es[0]), t.skip(1)));
        assert(replay(reconcile(s, es[0]), es.skip(1).push(e))
            == reconcile(replay(reconcile(s, es[0]), es.skip(1)), e));
        assert(replay(s, es) == replay(reconcile(s, es[0]), es.skip(1)));
    }
}

/// Replaying a sequence of events through the reconciler is
/// deterministic: an identical initial state and an identical event
/// sequence give an identical resulting state.
pub proof fn lemma_replay_deterministic(
    s1: StateModel,
    s2: StateModel,
    es1: Seq<EventModel>,
    es2: Seq<EventModel>,
)
    requires
        s1 == s2,
        es1 == es2,
    ensures
        replay(s1, es1) == replay(s2, es2),
{
}

/// A price update leaves no contract with a stale reference price: every
/// held contract carries the new price afterwards.
pub proof fn lemma_price_update_propagates(s: StateModel, price: int, timestamp: Seq<char>)
    ensures
        forall|i: int|
            0 <= i < s.contracts.len() ==> (#[trigger] reconcile(
                s,
                EventModel::BtcPriceUpdate { price, timestamp },
            ).contracts[i]).current_btc_price == Some(price),
{
}

/// What the keyboard-command dispatcher does: the state after the key,
/// and whether the key asks for a manual synchronous refetch.
pub open spec fn dispatch_key(s: StateModel, k: Key) -> (StateModel, bool) {
    match k {
        Key::Char(c) => if c == 'q' || c == 'Q' {
            ((StateModel { should_quit: true, ..s }), false)
        } else if c == 'r' || c == 'R' {
            (s, true)
        } else if c == 'h' || c == 'H' || c == '?' {
            ((StateModel { show_help: !s.show_help, help_scroll: 0, ..s }), false)
        } else {
            (s, false)
        },
        Key::Esc => ((StateModel { show_help: false, help_scroll: 0, ..s }), false),
        Key::Up => if s.show_help {
            ((StateModel {
                help_scroll: if s.help_scroll > 0 {
                    s.help_scroll - 1
                } else {
                    0
                },
                ..s
            }), false)
        } else {
            (s, false)
        },
        Key::Down => if s.show_help {
            ((StateModel {
                help_scroll: if s.help_scroll < u16::MAX as int {
                    s.help_scroll + 1
                } else {
                    u16::MAX as int
                },
                ..s
            }), false)
        } else {
            (s, false)
        },
        Key::Other => (s, false),
    }
}

impl AppState {
    /// The history buffers respect their capacity bound.
    pub open spec fn wf(&self) -> bool {
        &&& self.btc_price_history.wf()
        &&& self.realized_vol_history.wf()
        &&& self.implied_vol_history.wf()
    }

    /// A fresh state with empty/zero defaults.
    pub fn new() -> (r: AppState)
        ensures
            r.wf(),
            r@ == initial_state(),
    {
        let r = AppState {
            contracts: Vec::new(),
            current_btc_price: 0,
            connection_state: ConnectionState::Connecting,
            last_update: None,
            error_message: None,
            show_help: false,
            help_scroll: 0,
            should_quit: false,
            volatility_data: VolatilityData::neutral(),
            btc_price_history: HistoryBuffer::new(),
            realized_vol_history: HistoryBuffer::new(),
            implied_vol_history: HistoryBuffer::new(),
        };
        proof {
            assert(r.contracts.deep_view() =~= Seq::<ContractModel>::empty());
            assert(r@ =~= initial_state());
        }
        r
    }

    /// Fold one event into the state by the merge rules.
    pub fn apply_event(&mut self, event: AppEvent)
        requires
            old(self).wf(),
        ensures
            final(self).wf(),
            final(self)@ == reconcile(old(self)@, event@),
    {
        match event {
            AppEvent::Keyboard(_) => {},
            AppEvent::Tick => {},
            AppEvent::Quit => {
                self.should_quit = true;
            },
            AppEvent::SseConnected => {
                self.connection_state = ConnectionState::Connected;
                self.error_message = None;
            },
            AppEvent::SseDisconnected => {
                self.connection_state = ConnectionState::Disconnected;
                self.error_message = Some(String::from_str("stream disconnected, reconnecting"));
            },
            AppEvent::SseError(msg) => {
                self.connection_state = ConnectionState::Disconnected;
                self.error_message = Some(msg);
            },
            AppEvent::BtcPriceUpdate { price, timestamp: _ } => {
                self.current_btc_price = price;
                let ghost pre = self.contracts.deep_view();
                let mut updated: Vec<Contract> = Vec::new();
                let mut i: usize = 0;
                while i < self.contracts.len()
                    invariant
                        i <= self.contracts.len(),
                        updated.deep_view().len() == i as int,
                        forall|j: int|
                            0 <= j < i as int ==> updated.deep_view()[j] == with_price(
                                self.contracts.deep_view()[j],
                                price as int,
                            ),
                        self.contracts.deep_view() == pre,
                    decreases self.contracts.len() - i,
                {
                    let mut c = self.contracts[i].clone();
                    c.current_btc_price = Some(price);
                    proof {
                        assert(c@ == with_price(self.contracts@[i as int].deep_view(), price as int));
                        assert(self.contracts.deep_view()[i as int]
                            == self.contracts@[i as int].deep_view());
                    }
                    let ghost pre_vec = updated@;
                    let ghost pre_deep = updated.deep_view();
                    updated.push(c);
                    proof {
                        assert(updated@ == pre_vec.push(c));
                        assert forall|j: int| 0 <= j < i as int + 1 implies updated.deep_view()[j]
                            == with_price(self.contracts.deep_view()[j], price as int) by {
                            assert(updated.deep_view()[j] == updated@[j].deep_view());
                            if j < i as int {
                                assert(updated@[j] == pre_vec[j]);
                                assert(pre_deep[j] == pre_vec[j].deep_view());
                            } else {
                                assert(updated@[j] == c);
                            }
                        }
                    }
                    i += 1;
                }
                proof {
                    assert(updated.deep_view() =~= pre.map_values(
                        |c: ContractModel| with_price(c, price as int),
                    ));
                }
                self.contracts = updated;
                let sample = if price <= 0 {
                    0u64
                } else {
                    (price as u64) / (SCALE as u64)
                };
                proof {
                    assert(sample == price_sample(price as int));
                }
                self.btc_price_history.push(sample);
            },
            AppEvent::ContractsUpdate { contracts, volatility, timestamp } => {
                let rv_sample = if volatility.realized_vol <= 0 {
                    0u64
                } else {
                    (volatility.realized_vol as u64) / 100u64
                };
                let iv_sample = if volatility.implied_vol <= 0 {
                    0u64
                } else {
                    (volatility.implied_vol as u64) / 100u64
                };
                proof {
                    assert(rv_sample == vol_sample(volatility@.realized_vol));
                    assert(iv_sample == vol_sample(volatility@.implied_vol));
                }
                self.contracts = contracts;
                self.volatility_data = volatility;
                self.realized_vol_history.push(rv_sample);
                self.implied_vol_history.push(iv_sample);
                self.connection_state = ConnectionState::Connected;
                self.last_update = Some(timestamp);
                if self.contracts.len() > 0 {
                    let first_price = self.contracts[0].current_btc_price;
                    match first_price {
                        Some(p) => {
                            self.current_btc_price = p;
                            let sample = if p <= 0 {
                                0u64
                            } else {
                                (p as u64) / (SCALE as u64)
                            };
                            proof {
                                assert(sample == price_sample(p as int));
                            }
                            self.btc_price_history.push(sample);
                        },
                        None => {},
                    }
                }
            },
        }
    }

    /// Dispatch one keyboard key: quit, manual refresh, toggle or scroll
    /// the help overlay.  Returns whether the key asks for a manual
    /// synchronous refetch, which the caller performs.
    pub fn handle_key(&mut self, key: Key) -> (refresh: bool)
        requires
            old(self).wf(),
        ensures
            final(self).wf(),
            final(self)@ == dispatch_key(old(self)@, key).0,
            refresh == dispatch_key(old(self)@, key).1,
    {
        match key {
            Key::Char(c) => {
                if c == 'q' || c == 'Q' {
                    self.should_quit = true;
                    false
                } else if c == 'r' || c == 'R' {
                    true
                } else if c == 'h' || c == 'H' || c == '?' {
                    self.show_help = !self.show_help;
                    self.help_scroll = 0;
                    false
                } else {
                    false
                }
            },
            Key::Esc => {
                self.show_help = false;
                self.help_scroll = 0;
                false
            },
            Key::Up => {
                if self.show_help {
                    if self.help_scroll > 0 {
                        self.help_scroll = self.help_scroll - 1;
                    }
                }
                false
            },
            Key::Down => {
                if self.show_help {
                    if self.help_scroll < u16::MAX {
                        self.help_scroll = self.help_scroll + 1;
                    }
                }
                false
            },
            Key::Other => false,
        }
    }

    /// A manual or startup refetch begins: status shows `Connecting` and
    /// the error message clears while the request is in flight.  The
    /// fallback poller does not pass through here.
    pub fn begin_refetch(&mut self)
        requires
            old(self).wf(),
        ensures
            final(self).wf(),
            final(self)@ == (StateModel {
                connection_state: ConnectionState::Connecting,
                error_message: None,
                ..old(self)@
            }),
    {
        self.connection_state = ConnectionState::Connecting;
        self.error_message = None;
    }

    /// A synchronous refetch succeeded: the result feeds through the same
    /// reconciliation path as a contracts-update event.
    pub fn apply_fetch_success(
        &mut self,
        contracts: Vec<Contract>,
        volatility: VolatilityData,
        timestamp: String,
    )
        requires
            old(self).wf(),
        ensures
            final(self).wf(),
            final(self)@ == reconcile(
                old(self)@,
                EventModel::ContractsUpdate {
                    contracts: contracts.deep_view(),
                    volatility: volatility@,
                    timestamp: timestamp@,
                },
            ),
    {
        self.apply_event(AppEvent::ContractsUpdate { contracts, volatility, timestamp });
    }

    /// A synchronous refetch failed: the error message is set and the
    /// connection status shows `Disconnected`; nothing else changes, and
    /// in particular the last known good data stays on display.
    pub fn apply_fetch_failure(&mut self, message: String)
        requires
            old(self).wf(),
        ensures
            final(self).wf(),
            final(self)@ == (StateModel {
                connection_state: ConnectionState::Disconnected,
                error_message: Some(message@),
                ..old(self)@
            }),
    {
        self.connection_state = ConnectionState::Disconnected;
        self.error_message = Some(message);
    }

    /// Drain: fold a whole batch of events, in order.
    pub fn apply_events(&mut self, events: Vec<AppEvent>)
        requires
            old(self).wf(),
        ensures
            final(self).wf(),
            final(self)@ == replay(old(self)@, events.deep_view()),
    {
        let ghost all = events.deep_view();
        for event in it: events
            invariant
                it.seq().len() == all.len(),
                forall|j: int| 0 <= j < all.len() ==> it.seq()[j].deep_view() == all[j],
                self.wf(),
                self@ == replay(old(self)@, all.take(it.index() as int)),
        {
            let ghost k = it.index() as int;
            proof {
                lemma_replay_push(old(self)@, all.take(k), all[k]);
                assert(all.take(k).push(all[k]) =~= all.take(k + 1));
            }
            self.apply_event(event);
        }
        proof {
            assert(all.take(all.len() as int) =~= all);
        }
    }
}

} // verus!
