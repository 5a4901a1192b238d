//! Settlement core of a two-party token-swap escrow.
//!
//! A maker locks a deposit in a vault owned by a program-derived identity and
//! records what it wants in return. The two settlement processors, [`Take`]
//! and [`Refund`], validate their account lists, re-derive the escrow
//! identity, and move balances and storage in a fixed order, all or nothing.
pub mod address;
pub mod errors;
pub mod state;
pub mod validation;
pub mod token;
pub mod take;
pub mod refund;
pub mod laws;
pub mod ledger;

pub use address::Address;
pub use errors::{PinocchioError, ProgramError};
pub use refund::{Refund, RefundAccounts};
pub use state::{Account, AccountData, Escrow, TokenAccount};
pub use take::{Take, TakeAccounts};
pub use token::{Authority, Signing, Step};
