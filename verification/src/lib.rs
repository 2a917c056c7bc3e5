//! A digital-collectible registry with economic transfer semantics:
//! minting with pseudo-random attribute generation, ownership transfer,
//! price-gated sale, and genetic-combination breeding.

pub mod errors;
pub mod kitty;
pub mod ledger;
pub mod pallet;
pub mod random;

pub use errors::Error;
pub use kitty::Kitty;
pub use ledger::{AccountData, Ledger, LedgerError};
pub use pallet::{Config, Event, GenesisConfig, Pallet};
pub use random::Entropy;
