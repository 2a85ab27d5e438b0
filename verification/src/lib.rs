//! Verified core of the Python bindings for the Barter trading engine:
//! exact decimals, risk limits, configuration, balances, orders and the
//! small text parsers that the bindings put in front of them.
pub mod decimal;
pub mod risk;
pub mod config;
pub mod text;
pub mod parse;
pub mod exchange;
pub mod balance;
pub mod order;
pub mod instrument;
pub mod sequence;
pub mod socket_error;
pub mod command;
pub mod account;
