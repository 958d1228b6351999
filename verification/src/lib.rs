//! An on-ledger automated trading agent: a per-owner `Bot` record whose
//! lifecycle (create, activate, deactivate) and single business operation
//! (trade execution against a risk parameter) are verified state-transition
//! rules. Records live in a [`store::BotStore`] keyed by owner identity;
//! native value moves between accounts of a [`ledger::Ledger`], and every
//! operation is atomic: either all of its state changes commit, or none do.

pub mod bot;
pub mod errors;
pub mod ident;
pub mod ledger;
pub mod ops;
pub mod store;

pub use bot::Bot;
pub use errors::BotError;
pub use errors::TransferError;
pub use ident::Identity;
pub use ledger::Ledger;
pub use ops::activate_bot;
pub use ops::deactivate_bot;
pub use ops::execute_trade;
pub use ops::initialize_bot;
pub use store::BotStore;
