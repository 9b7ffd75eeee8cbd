//! An on-ledger accounting core.
//!
//! A designated owner configures fixed-point conversion rates between pairs
//! of asset identifiers; any caller may convert a quantity of one asset into
//! another, singly or as a batch, against an internally tracked balance
//! ledger. Every operation carries a contract: rate lookup falls back to a
//! par rate for unconfigured pairs, conversions truncate toward zero, debits
//! are guarded by a sufficiency check, and a failing batch leaves the
//! mutations of its earlier requests in place (partial commit).

pub mod account;
pub mod errors;
pub mod events;
pub mod laws;
pub mod ledger;
pub mod rates;
pub mod swap;

pub use account::AccountId;
pub use errors::Error;
pub use events::BatchSwapExecuted;
pub use events::SwapExecuted;
pub use ledger::Ledger;
pub use rates::RateTable;
pub use rates::RATE_SCALE;
pub use swap::StablecoinSwap;
