//! Wallet-side logic of a Zcash light wallet.
//!
//! - `text`, `account_id`: hexadecimal and decimal text, and account UUIDs.
//! - `accounts`, `address`, `balance`: account listings, default addresses
//!   and balance reports.
//! - `create`, `creation`: the decisions of wallet creation, and the machine
//!   that orders its outside work.
//! - `send`, `transfer`: the checks before a transfer is proposed, and the
//!   machine that carries a transfer to its outcome.
//! - `ffi`: the values that cross the C boundary.
pub mod text;
pub mod account_id;
pub mod accounts;
pub mod address;
pub mod balance;
pub mod create;
pub mod creation;
pub mod send;
pub mod transfer;
pub mod ffi;
