//! A minimal donation ledger: one owner-controlled account accumulates
//! donations and lets the owner withdraw everything above a mandatory
//! reserve floor. This crate holds the accounting and authorization core;
//! value transfer, persistence and identity authentication are supplied by
//! the surrounding execution substrate.

pub mod errors;
pub mod get_balance;
pub mod initialize_coffee;
pub mod send_coffee;
pub mod states;
pub mod withdraw;
