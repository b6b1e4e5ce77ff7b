//! The rules of a small marketplace: who may place an order and what it
//! costs, how balances and stock change with it, which way a delivery may
//! move and who may move it, and the rules of accounts, products and carts
//! around that.
//!
//! Every operation is a decision on plain values. The caller reads what the
//! decision needs from storage, asks, and writes what is returned; nothing
//! here reads or writes storage itself. Each operation has a rule, a spec
//! function that says what it returns on every input, and is proved to
//! follow it; what holds of the rules themselves is proved beside them.
//!
//! - [`order`]: placing an order.
//! - [`transaction`]: the order record, its history, and the delivery
//!   workflow.
//! - [`decimal`], [`bigint`]: money amounts and integers of any size.
//! - [`auth`], [`token`], [`account`]: callers, tokens and accounts.
//! - [`product`], [`cart`]: the catalogue and carts.
//! - [`error`]: the failures and how they are reported.
//! - [`util`], [`validate`], [`migrate`], [`vite`]: identifiers and
//!   instants, checks on text, layout versions, and front-end files.

pub mod account;
pub mod auth;
pub mod bigint;
pub mod cart;
pub mod decimal;
pub mod error;
pub mod migrate;
pub mod order;
pub mod product;
pub mod token;
pub mod transaction;
pub mod util;
pub mod validate;
pub mod vite;
