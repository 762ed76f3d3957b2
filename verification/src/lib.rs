//! Real-time event ingestion and state reconciliation for a terminal
//! trading dashboard.
//!
//! The library owns the logic of the dashboard's core: decoding typed
//! stream messages, folding events into the canonical application state,
//! bounding the staleness of displayed data with a fallback poller, and
//! the policies of the cooperative main loop.  Network and terminal I/O
//! live outside the library and communicate with it through plain values.

pub mod decode;
pub mod history;
pub mod json;
pub mod model;
pub mod runtime;
pub mod state;
pub mod text;
pub mod timefmt;

pub use history::HistoryBuffer;
pub use model::AppEvent;
pub use model::ConnectionState;
pub use model::Contract;
pub use model::Key;
pub use model::VolatilityData;
pub use runtime::FallbackPoller;
pub use state::AppState;
