//! The accounting core of a two-asset constant-product market maker: the
//! pricing curve, and the checks and ledger instructions of deposits,
//! withdrawals and swaps.

pub mod curve;
pub mod deposit;
pub mod error;
pub mod ledger;
pub mod state;
pub mod swap;
pub mod withdraw;

pub use deposit::{deposit, Deposit};
pub use error::AmmError;
pub use ledger::{Asset, LedgerOp};
pub use state::{initialize, Config, Key};
pub use swap::Swap;
pub use withdraw::Withdraw;
