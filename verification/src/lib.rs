//! Accounting and settlement engine of a token payment gateway.

pub mod cache;
pub mod decimal;
pub mod digest;
pub mod fetch;
pub mod funding;
pub mod gateway;
pub mod identity;
pub mod ledger;
pub mod order;
pub mod profiles;
pub mod qr;
pub mod quote;
pub mod rates;
pub mod reads;
pub mod registry;
pub mod requests;
pub mod rows;
pub mod settlement;
pub mod stats;
pub mod text;
pub mod topup;
pub mod transactions;
pub mod types;
pub mod wallet;
