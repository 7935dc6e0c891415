//! A fungible-token ledger with machine-checked accounting.
//!
//! The ledger keeps balances, allowances and the total supply of one token and
//! changes them only through `mint`, `burn`, `transfer`, `approve` and
//! `transfer_from`. Every operation is atomic: it either applies in full and
//! records its event, or fails with one [`Erc20Error`] and leaves the ledger as
//! it was. Balances always add up to the total supply.
//!
//! Minting is open to every caller: neither the ledger nor the shell around it
//! checks who asks for new tokens.
//!
//! - [`state`] says what each operation does, over maps and numbers, and
//!   [`laws`] proves what follows for every sequence of operations.
//! - [`erc20`] is the executable ledger and [`token`] the shell that callers
//!   reach; their contracts are stated over [`state`].
//! - [`mapping`], [`supply`], [`uint`], [`address`], [`event`] and [`error`]
//!   hold the parts: the sparse mapping and the sum of its amounts, 256-bit
//!   amounts, account addresses, events and errors.

pub mod address;
pub mod erc20;
pub mod error;
pub mod event;
pub mod laws;
pub mod mapping;
pub mod state;
pub mod supply;
pub mod token;
pub mod uint;

pub use address::Address;
pub use erc20::{Erc20, Erc20Params};
pub use error::Erc20Error;
pub use event::Event;
pub use mapping::{Key, Mapping};
pub use state::LedgerState;
pub use token::StylusToken;
pub use uint::U256;
